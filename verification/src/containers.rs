use vstd::prelude::*;

verus! {

/// A container that the local engine lists, as far as the search reads it.
#[derive(Debug)]
pub struct ContainerSummary {
    pub id: String,
    pub names: Vec<String>,
}

/// All of a container's names written one after the other.
pub open spec fn joined(names: Seq<Seq<char>>) -> Seq<char>
    decreases names.len(),
{
    if names.len() == 0 {
        Seq::empty()
    } else {
        joined(names.drop_last()) + names.last()
    }
}

/// Whether `needle` occurs in `hay`.
pub open spec fn occurs_in(needle: Seq<char>, hay: Seq<char>) -> bool {
    exists|i: int| 0 <= i && i + needle.len() <= hay.len() && #[trigger] hay.subrange(i, i + needle.len()) == needle
}

pub open spec fn names_view(c: ContainerSummary) -> Seq<Seq<char>> {
    c.names@.map_values(|s: String| s@)
}

/// Whether the container's names, written together, hold `name`.
pub open spec fn container_matches(c: ContainerSummary, name: Seq<char>) -> bool {
    occurs_in(name, joined(names_view(c)))
}

/// The index of the first listed container whose names hold `name`.
pub open spec fn first_match(cs: Seq<ContainerSummary>, name: Seq<char>) -> Option<int> {
    if exists|i: int| 0 <= i < cs.len() && container_matches(#[trigger] cs[i], name) {
        Some(choose|i: int| 0 <= i < cs.len() && container_matches(#[trigger] cs[i], name) && forall|j: int| 0 <= j < i ==> !container_matches(#[trigger] cs[j], name))
    } else {
        None
    }
}

fn join_names(names: &Vec<String>) -> (r: String)
    ensures
        r@ == joined(names@.map_values(|s: String| s@)),
{
    let ghost nv = names@.map_values(|s: String| s@);
    let mut r = String::new();
    let mut i: usize = 0;
    assert(nv.take(0) =~= Seq::<Seq<char>>::empty());
    while i < names.len()
        invariant
            nv == names@.map_values(|s: String| s@),
            i <= names.len(),
            r@ == joined(nv.take(i as int)),
        decreases names.len() - i,
    {
        r.append(names[i].as_str());
        assert(nv.take(i + 1).drop_last() =~= nv.take(i as int));
        assert(nv.take(i + 1).last() == names@[i as int]@);
        i = i + 1;
    }
    assert(nv.take(i as int) =~= nv);
    r
}

/// Whether `needle` occurs in `hay`.
pub fn text_occurs(needle: &str, hay: &str) -> (r: bool)
    ensures
        r == occurs_in(needle@, hay@),
{
    let n = needle.unicode_len();
    let h = hay.unicode_len();
    if n > h {
        return false;
    }
    let mut i: usize = 0;
    while i <= h - n
        invariant
            n == needle@.len(),
            h == hay@.len(),
            n <= h,
            i <= h - n + 1,
            forall|k: int| 0 <= k < i ==> #[trigger] hay@.subrange(k, k + n) != needle@,
        decreases h - n + 1 - i,
    {
        let mut j: usize = 0;
        while j < n && hay.get_char(i + j) == needle.get_char(j)
            invariant
                n == needle@.len(),
                h == hay@.len(),
                i + n <= h,
                j <= n,
                forall|m: int| 0 <= m < j ==> hay@[i + m] == needle@[m],
            decreases n - j,
        {
            j = j + 1;
        }
        if j == n {
            assert(hay@.subrange(i as int, i + n) =~= needle@);
            return true;
        }
        assert(hay@.subrange(i as int, i + n)[j as int] != needle@[j as int]);
        i = i + 1;
    }
    false
}

/// The index of the first listed container whose names hold `name`.
pub fn find_container(containers: &Vec<ContainerSummary>, name: &str) -> (r: Option<usize>)
    ensures
        r is None <==> first_match(containers@, name@) is None,
        r matches Some(i) ==> i < containers@.len() && first_match(containers@, name@) == Some(
            i as int,
        ),
{
    let mut i: usize = 0;
    while i < containers.len()
        invariant
            i <= containers.len(),
            forall|j: int| 0 <= j < i ==> !container_matches(#[trigger] containers@[j], name@),
        decreases containers.len() - i,
    {
        let all = join_names(&containers[i].names);
        if text_occurs(name, all.as_str()) {
            assert(container_matches(containers@[i as int], name@));
            let ghost c = choose|k: int| 0 <= k < containers@.len() && container_matches(#[trigger] containers@[k], name@) && forall|j: int| 0 <= j < k ==> !container_matches(#[trigger] containers@[j], name@);
            proof {
                assert(forall|j: int| 0 <= j < i ==> !container_matches(#[trigger] containers@[j], name@));
                if c < i {
                } else if c > i {
                    assert(!container_matches(containers@[i as int], name@));
                }
                assert(c == i);
            }
            return Some(i);
        }
        i = i + 1;
    }
    assert(!exists|i: int| 0 <= i < containers@.len() && container_matches(#[trigger] containers@[i], name@));
    None
}

/// Whether a container whose names hold `container_name` is listed.
pub fn check_container_exist(containers: &Vec<ContainerSummary>, container_name: &str) -> (r: bool)
    ensures
        r == first_match(containers@, container_name@) is Some,
{
    find_container(containers, container_name).is_some()
}

/// The id of the first listed container whose names hold `container_name`.
pub fn get_container_id(containers: &Vec<ContainerSummary>, container_name: &str) -> (r: Option<String>)
    ensures
        match first_match(containers@, container_name@) {
            Some(i) => r matches Some(id) && id@ == containers@[i].id@,
            None => r is None,
        },
{
    match find_container(containers, container_name) {
        Some(i) => {
            let id = containers[i].id.clone();
            Some(id)
        },
        None => None,
    }
}

} // verus!
