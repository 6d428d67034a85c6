use vstd::prelude::*;
use crate::project::{Project, ProjectView, sort_by_rank, sorted_by_rank, texts, views};

verus! {

broadcast use vstd::seq_lib::group_to_multiset_ensures;

/// A JSON value, as far as the project list reads it.
pub enum JsonValue {
    Null,
    Bool(bool),
    /// A number that fits a `u64`.
    UInt(u64),
    /// Any other number: negative, fractional or too large.
    OtherNumber,
    Str(String),
    Array(Vec<JsonValue>),
    /// The members of an object, in order.
    Object(Vec<(String, JsonValue)>),
}

/// Why a project list could not be read.
pub enum ProjectLoadError {
    /// The document is not a JSON object.
    NotAnObject,
    /// The member at this position is not a well-formed project.
    InvalidEntry(usize),
}

/// The value of the member named `key`; where several carry that name, the last.
pub open spec fn member(entries: Seq<(String, JsonValue)>, key: Seq<char>) -> Option<JsonValue>
    decreases entries.len(),
{
    if entries.len() == 0 {
        None
    } else if entries.last().0@ == key {
        Some(entries.last().1)
    } else {
        member(entries.drop_last(), key)
    }
}

/// The text of a string value.
pub open spec fn text_of(v: JsonValue) -> Seq<char> {
    match v {
        JsonValue::Str(s) => s@,
        _ => Seq::empty(),
    }
}

/// The member `key` is a string.
pub open spec fn has_text(entries: Seq<(String, JsonValue)>, key: Seq<char>) -> bool {
    member(entries, key) matches Some(JsonValue::Str(_))
}

/// The member `key` is an array of strings.
pub open spec fn has_text_list(entries: Seq<(String, JsonValue)>, key: Seq<char>) -> bool {
    match member(entries, key) {
        Some(JsonValue::Array(items)) => forall|i: int|
            0 <= i < items@.len() ==> #[trigger] items@[i] is Str,
        _ => false,
    }
}

/// The texts of the array held by member `key`.
pub open spec fn text_list_of(entries: Seq<(String, JsonValue)>, key: Seq<char>) -> Seq<Seq<char>> {
    match member(entries, key) {
        Some(JsonValue::Array(items)) => items@.map_values(|v: JsonValue| text_of(v)),
        _ => Seq::empty(),
    }
}

/// The member `key` is a number that fits a `u64`.
pub open spec fn has_count(entries: Seq<(String, JsonValue)>, key: Seq<char>) -> bool {
    member(entries, key) matches Some(JsonValue::UInt(_))
}

/// The number held by member `key`.
pub open spec fn count_of(entries: Seq<(String, JsonValue)>, key: Seq<char>) -> u64 {
    match member(entries, key) {
        Some(JsonValue::UInt(n)) => n,
        _ => 0,
    }
}

/// `v` is an object with every field of a project, each of its type; other
/// members are allowed and ignored.
pub open spec fn is_project(v: JsonValue) -> bool {
    match v {
        JsonValue::Object(e) => {
            &&& has_text(e@, "name"@)
            &&& has_text_list(e@, "language"@)
            &&& has_text(e@, "description"@)
            &&& has_text(e@, "implementation"@)
            &&& has_text(e@, "link"@)
            &&& has_text(e@, "image"@)
            &&& has_count(e@, "rank"@)
        },
        _ => false,
    }
}

/// The project that a well-formed value describes.
pub open spec fn project_of(v: JsonValue) -> ProjectView {
    match v {
        JsonValue::Object(e) => ProjectView {
            name: text_of(member(e@, "name"@).unwrap()),
            language: text_list_of(e@, "language"@),
            description: text_of(member(e@, "description"@).unwrap()),
            implementation: text_of(member(e@, "implementation"@).unwrap()),
            link: text_of(member(e@, "link"@).unwrap()),
            image: text_of(member(e@, "image"@).unwrap()),
            rank: count_of(e@, "rank"@),
        },
        _ => arbitrary(),
    }
}

/// No member after position `k` carries the name of member `k`.
pub open spec fn last_of_name(entries: Seq<(String, JsonValue)>, k: int) -> bool {
    forall|j: int| k < j < entries.len() ==> #[trigger] entries[j].0@ != entries[k].0@
}

/// No two members carry the same name.
pub open spec fn names_distinct(entries: Seq<(String, JsonValue)>) -> bool {
    forall|a: int, b: int| 0 <= a < b < entries.len() ==> #[trigger] entries[a].0@ != #[trigger] entries[b].0@
}

/// The projects described by the members before position `i`, in member
/// order, keeping of each name only the last member that carries it; the
/// names themselves are dropped.
pub open spec fn kept_projects(entries: Seq<(String, JsonValue)>, i: int) -> Seq<ProjectView>
    decreases i,
{
    if i <= 0 {
        Seq::empty()
    } else if last_of_name(entries, i - 1) {
        kept_projects(entries, i - 1).push(project_of(entries[i - 1].1))
    } else {
        kept_projects(entries, i - 1)
    }
}

/// Where the member names are distinct, every member is kept.
pub proof fn lemma_distinct_names_keep_all(entries: Seq<(String, JsonValue)>, i: int)
    requires
        names_distinct(entries),
        0 <= i <= entries.len(),
    ensures
        kept_projects(entries, i).len() == i,
    decreases i,
{
    if i > 0 {
        lemma_distinct_names_keep_all(entries, i - 1);
        assert(last_of_name(entries, i - 1));
    }
}

/// Finds the member named `key`, the last where several carry it.
fn find_member<'a>(entries: &'a Vec<(String, JsonValue)>, key: &str) -> (r: Option<&'a JsonValue>)
    ensures
        r matches Some(v) ==> member(entries@, key@) == Some(*v),
        r is None ==> member(entries@, key@) is None,
{
    let wanted = String::from_str(key);
    let mut found: Option<&'a JsonValue> = None;
    let mut i: usize = 0;
    while i < entries.len()
        invariant
            i <= entries@.len(),
            wanted@ == key@,
            found matches Some(v) ==> member(entries@.subrange(0, i as int), key@) == Some(*v),
            found is None ==> member(entries@.subrange(0, i as int), key@) is None,
        decreases entries@.len() - i,
    {
        let entry = &entries[i];
        proof {
            let s = entries@.subrange(0, i + 1);
            assert(s.drop_last() =~= entries@.subrange(0, i as int));
            assert(s.last() == entries@[i as int]);
        }
        if entry.0 == wanted {
            found = Some(&entry.1);
        }
        i = i + 1;
    }
    proof {
        assert(entries@.subrange(0, entries@.len() as int) =~= entries@);
    }
    found
}

/// The text of member `key`, where it is a string.
fn text_member(entries: &Vec<(String, JsonValue)>, key: &str) -> (r: Option<String>)
    ensures
        r is Some <==> has_text(entries@, key@),
        r matches Some(t) ==> t@ == text_of(member(entries@, key@).unwrap()),
{
    match find_member(entries, key) {
        Some(JsonValue::Str(s)) => Some(s.clone()),
        _ => None,
    }
}

/// The number held by member `key`, where it fits a `u64`.
fn count_member(entries: &Vec<(String, JsonValue)>, key: &str) -> (r: Option<u64>)
    ensures
        r is Some <==> has_count(entries@, key@),
        r matches Some(n) ==> n == count_of(entries@, key@),
{
    match find_member(entries, key) {
        Some(JsonValue::UInt(n)) => Some(*n),
        _ => None,
    }
}

/// The texts of member `key`, where it is an array of strings.
fn text_list_member(entries: &Vec<(String, JsonValue)>, key: &str) -> (r: Option<Vec<String>>)
    ensures
        r is Some <==> has_text_list(entries@, key@),
        r matches Some(l) ==> texts(l@) == text_list_of(entries@, key@),
{
    match find_member(entries, key) {
        Some(JsonValue::Array(items)) => {
            let mut out: Vec<String> = Vec::new();
            let mut i: usize = 0;
            while i < items.len()
                invariant
                    i <= items@.len(),
                    member(entries@, key@) == Some(JsonValue::Array(*items)),
                    forall|k: int| 0 <= k < i ==> #[trigger] items@[k] is Str,
                    texts(out@) =~= items@.subrange(0, i as int).map_values(
                        |v: JsonValue| text_of(v),
                    ),
                decreases items@.len() - i,
            {
                match &items[i] {
                    JsonValue::Str(t) => {
                        let ghost before = out@;
                        out.push(t.clone());
                        proof {
                            assert(texts(out@) =~= texts(before).push(t@));
                            assert(items@.subrange(0, i + 1) =~= items@.subrange(0, i as int).push(
                                items@[i as int],
                            ));
                        }
                    },
                    _ => {
                        return None;
                    },
                }
                i = i + 1;
            }
            proof {
                assert(items@.subrange(0, items@.len() as int) =~= items@);
            }
            Some(out)
        },
        _ => None,
    }
}

/// Reads one project from a JSON value: an object with the fields `name`,
/// `description`, `implementation`, `link` and `image` as strings, `language`
/// as an array of strings and `rank` as a non-negative integer. Other members
/// are ignored; a missing or mistyped field gives `None`.
pub fn project_from_json(v: &JsonValue) -> (r: Option<Project>)
    ensures
        r is Some <==> is_project(*v),
        r matches Some(p) ==> p@ == project_of(*v),
{
    match v {
        JsonValue::Object(e) => {
            let name = text_member(e, "name");
            let language = text_list_member(e, "language");
            let description = text_member(e, "description");
            let implementation = text_member(e, "implementation");
            let link = text_member(e, "link");
            let image = text_member(e, "image");
            let rank = count_member(e, "rank");
            match (name, language, description, implementation, link, image, rank) {
                (
                    Some(name),
                    Some(language),
                    Some(description),
                    Some(implementation),
                    Some(link),
                    Some(image),
                    Some(rank),
                ) => Some(Project { name, language, description, implementation, link, image, rank }),
                _ => None,
            }
        },
        _ => None,
    }
}

/// Every member of the document is a well-formed project.
pub open spec fn all_projects(entries: Seq<(String, JsonValue)>) -> bool {
    forall|k: int| 0 <= k < entries.len() ==> is_project(#[trigger] entries[k].1)
}

/// Member `k` is the first that is not a well-formed project.
pub open spec fn first_invalid(entries: Seq<(String, JsonValue)>, k: int) -> bool {
    &&& 0 <= k < entries.len()
    &&& !is_project(entries[k].1)
    &&& forall|j: int| 0 <= j < k ==> is_project(#[trigger] entries[j].1)
}

/// Reads the project list from a document that maps arbitrary keys to
/// projects. Where a key repeats, its last member wins, as in a map; the keys
/// are then dropped and the projects come back ordered by rank, lowest first.
/// Nothing is returned of a document with a malformed member.
pub fn load_projects(doc: &JsonValue) -> (r: Result<Vec<Project>, ProjectLoadError>)
    ensures
        !(doc is Object) ==> r matches Err(ProjectLoadError::NotAnObject),
        doc matches JsonValue::Object(e) ==> {
            &&& r is Ok <==> all_projects(e@)
            &&& r matches Err(ProjectLoadError::InvalidEntry(k)) ==> first_invalid(e@, k as int)
            &&& !(r matches Err(ProjectLoadError::NotAnObject))
            &&& r matches Ok(ps) ==> {
                &&& ps@.len() == kept_projects(e@, e@.len() as int).len()
                &&& names_distinct(e@) ==> ps@.len() == e@.len()
                &&& sorted_by_rank(ps@)
                &&& views(ps@).to_multiset() == kept_projects(e@, e@.len() as int).to_multiset()
            }
        },
{
    match doc {
        JsonValue::Object(e) => {
            let mut found: Vec<Project> = Vec::new();
            let mut i: usize = 0;
            while i < e.len()
                invariant
                    *doc == JsonValue::Object(*e),
                    i <= e@.len(),
                    forall|k: int| 0 <= k < i ==> is_project(#[trigger] e@[k].1),
                    views(found@) =~= kept_projects(e@, i as int),
                decreases e@.len() - i,
            {
                match project_from_json(&e[i].1) {
                    Some(p) => {
                        let mut last = true;
                        let mut j: usize = i + 1;
                        while j < e.len()
                            invariant
                                i < j <= e@.len(),
                                last ==> forall|k: int| i < k < j ==> #[trigger] e@[k].0@ != e@[i as int].0@,
                                !last ==> !last_of_name(e@, i as int),
                            decreases e@.len() - j,
                        {
                            if e[j].0 == e[i].0 {
                                last = false;
                            }
                            j = j + 1;
                        }
                        if last {
                            let ghost before = found@;
                            found.push(p);
                            proof {
                                assert(views(found@) =~= views(before).push(p@));
                            }
                        }
                    },
                    None => {
                        return Err(ProjectLoadError::InvalidEntry(i));
                    },
                }
                i = i + 1;
            }
            proof {
                vstd::seq_lib::to_multiset_len(views(found@));
                if names_distinct(e@) {
                    lemma_distinct_names_keep_all(e@, e@.len() as int);
                }
            }
            Ok(sort_by_rank(found))
        },
        _ => Err(ProjectLoadError::NotAnObject),
    }
}

} // verus!
