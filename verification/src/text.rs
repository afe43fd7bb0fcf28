use vstd::prelude::*;

verus! {

/// The characters of each text in a list, in order.
pub open spec fn texts_view(list: Seq<&str>) -> Seq<Seq<char>> {
    list.map_values(|s: &str| s@)
}

/// The characters of each string in a list, in order.
pub open spec fn strings_view(list: Seq<String>) -> Seq<Seq<char>> {
    list.map_values(|s: String| s@)
}

/// Character-wise equality of two texts.
pub fn same_text(a: &str, b: &str) -> (r: bool)
    ensures
        r == (a@ == b@),
{
    let n = a.unicode_len();
    if n != b.unicode_len() {
        return false;
    }
    let mut i: usize = 0;
    while i < n
        invariant
            n == a@.len(),
            n == b@.len(),
            i <= n,
            forall|j: int| 0 <= j < i ==> a@[j] == b@[j],
        decreases n - i,
    {
        if a.get_char(i) != b.get_char(i) {
            return false;
        }
        i = i + 1;
    }
    assert(a@ =~= b@);
    true
}

/// Whether `text` is one of the entries of `list`.
pub fn list_contains(list: &Vec<&str>, text: &str) -> (r: bool)
    ensures
        r == texts_view(list@).contains(text@),
{
    let mut i: usize = 0;
    while i < list.len()
        invariant
            i <= list.len(),
            forall|j: int| 0 <= j < i ==> list@[j]@ != text@,
        decreases list.len() - i,
    {
        if same_text(list[i], text) {
            assert(texts_view(list@)[i as int] == text@);
            return true;
        }
        i = i + 1;
    }
    proof {
        if texts_view(list@).contains(text@) {
            let k = choose|k: int| 0 <= k < texts_view(list@).len() && texts_view(list@)[k] == text@;
            assert(list@[k]@ == text@);
        }
    }
    false
}

/// An owned copy of each text of a list, in order.
pub fn to_strings(list: &Vec<&str>) -> (r: Vec<String>)
    ensures
        strings_view(r@) == texts_view(list@),
{
    let mut r: Vec<String> = Vec::new();
    let mut i: usize = 0;
    while i < list.len()
        invariant
            i <= list.len(),
            r@.len() == i,
            forall|j: int| 0 <= j < i ==> r@[j]@ == list@[j]@,
        decreases list.len() - i,
    {
        r.push(String::from_str(list[i]));
        i = i + 1;
    }
    assert(strings_view(r@) =~= texts_view(list@));
    r
}

} // verus!
