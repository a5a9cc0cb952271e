use vstd::prelude::*;

verus! {

/// The version of this library, as recorded in the files it writes.
pub const VERSION: &'static str = "0.1.0";

pub fn version() -> (r: String)
    ensures
        r@ == VERSION@,
{
    VERSION.to_string()
}

/// The authors of this library, separated by commas; the package declares none.
pub const AUTHORS: &'static str = "";

/// The text before the first comma of `s`, or all of `s`.
pub open spec fn first_field(s: Seq<char>) -> Seq<char> {
    if exists|i: int| 0 <= i < s.len() && s[i] == ',' {
        s.subrange(0, choose|i: int| 0 <= i < s.len() && s[i] == ',' && forall|j: int| 0 <= j < i ==> s[j] != ',')
    } else {
        s
    }
}

/// The first of the authors.
pub fn author() -> (r: String)
    ensures
        r@ == first_field(AUTHORS@),
{
    first_author(AUTHORS)
}

/// The text before the first comma of a list of authors.
pub fn first_author(authors: &str) -> (r: String)
    ensures
        r@ == first_field(authors@),
{
    let n = authors.unicode_len();
    let mut i: usize = 0;
    while i < n && authors.get_char(i) != ','
        invariant
            n == authors@.len(),
            i <= n,
            forall|j: int| 0 <= j < i ==> authors@[j] != ',',
        decreases n - i,
    {
        i = i + 1;
    }
    if i < n {
        let ghost w = choose|k: int| 0 <= k < authors@.len() && authors@[k] == ',' && forall|j: int| 0 <= j < k ==> authors@[j] != ',';
        assert(0 <= i < authors@.len() && authors@[i as int] == ',' && forall|j: int| 0 <= j < i ==> authors@[j] != ',');
        assert(w == i) by {
            if w < i {
                assert(authors@[w] != ',');
            } else if w > i {
                assert(authors@[i as int] != ',');
            }
        }
        authors.substring_char(0, i).to_string()
    } else {
        authors.to_string()
    }
}

} // verus!
