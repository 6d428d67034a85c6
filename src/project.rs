use vstd::multiset::Multiset;
use vstd::prelude::*;

verus! {

broadcast use vstd::seq_lib::group_to_multiset_ensures;

/// One portfolio entry, as listed on the index page.
pub struct Project {
    pub name: String,
    pub language: Vec<String>,
    pub description: String,
    pub implementation: String,
    pub link: String,
    pub image: String,
    /// Display position: lower ranks come first.
    pub rank: u64,
}

/// `s` lists its projects by rank, lowest first.
pub open spec fn sorted_by_rank(s: Seq<Project>) -> bool {
    forall|i: int, j: int| 0 <= i < j < s.len() ==> #[trigger] s[i].rank <= #[trigger] s[j].rank
}

/// What a project says, as plain values.
pub ghost struct ProjectView {
    pub name: Seq<char>,
    pub language: Seq<Seq<char>>,
    pub description: Seq<char>,
    pub implementation: Seq<char>,
    pub link: Seq<char>,
    pub image: Seq<char>,
    pub rank: u64,
}

/// The texts of a list of strings.
pub open spec fn texts(v: Seq<String>) -> Seq<Seq<char>> {
    v.map_values(|s: String| s@)
}

impl View for Project {
    type V = ProjectView;

    open spec fn view(&self) -> ProjectView {
        ProjectView {
            name: self.name@,
            language: texts(self.language@),
            description: self.description@,
            implementation: self.implementation@,
            link: self.link@,
            image: self.image@,
            rank: self.rank,
        }
    }
}

/// The views of a sequence of projects.
pub open spec fn views(s: Seq<Project>) -> Seq<ProjectView> {
    s.map_values(|p: Project| p@)
}

/// `a` holds the same projects as `b`, each as often, in any order.
pub open spec fn same_projects(a: Seq<Project>, b: Seq<Project>) -> bool {
    views(a).to_multiset() == views(b).to_multiset()
}

/// Orders the projects by rank, lowest first; projects of equal rank may come
/// in either order.
pub fn sort_by_rank(projects: Vec<Project>) -> (r: Vec<Project>)
    ensures
        same_projects(r@, projects@),
        r@.len() == projects@.len(),
        sorted_by_rank(r@),
{
    let mut rest = projects;
    let mut out: Vec<Project> = Vec::new();
    while rest.len() > 0
        invariant
            views(out@).to_multiset().add(views(rest@).to_multiset()) == views(
                projects@,
            ).to_multiset(),
            sorted_by_rank(out@),
        decreases rest.len(),
    {
        let ghost before = rest@;
        let p = rest.pop().unwrap();
        proof {
            assert(before == rest@.push(p));
            assert(views(before) =~= views(rest@).push(p@));
            vstd::seq_lib::to_multiset_build(views(rest@), p@);
        }
        let mut j: usize = 0;
        while j < out.len() && out[j].rank <= p.rank
            invariant
                j <= out@.len(),
                forall|k: int| 0 <= k < j ==> #[trigger] out@[k].rank <= p.rank,
            decreases out@.len() - j,
        {
            j = j + 1;
        }
        let ghost prev = out@;
        let ghost pr = p.rank;
        let ghost pv = p@;
        out.insert(j, p);
        proof {
            assert(out@ == prev.insert(j as int, p));
            assert(views(out@) =~= views(prev).insert(j as int, pv));
            vstd::seq_lib::to_multiset_insert(views(prev), j as int, pv);
            assert forall|a: int, b: int| 0 <= a < b < out@.len() implies #[trigger] out@[a].rank
                <= #[trigger] out@[b].rank by {
                if j < prev.len() {
                    assert(prev[j as int].rank > pr);
                }
                if a < j && b > j {
                    assert(out@[a] == prev[a]);
                    assert(out@[b] == prev[b - 1]);
                } else if a < j && b == j {
                    assert(out@[a] == prev[a]);
                } else if a == j {
                    assert(out@[b] == prev[b - 1]);
                    if b - 1 > j {
                        assert(prev[j as int].rank <= prev[b - 1].rank);
                    }
                } else if b < j {
                    assert(out@[a] == prev[a]);
                    assert(out@[b] == prev[b]);
                } else {
                    assert(out@[a] == prev[a - 1]);
                    assert(out@[b] == prev[b - 1]);
                }
            }
        }
    }
    proof {
        assert(rest@.len() == 0);
        assert(views(rest@).to_multiset() =~= Multiset::empty());
        assert(views(out@).to_multiset().add(Multiset::empty()) =~= views(out@).to_multiset());
        vstd::seq_lib::to_multiset_len(views(out@));
        vstd::seq_lib::to_multiset_len(views(projects@));
    }
    out
}

} // verus!
