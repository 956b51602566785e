use vstd::prelude::*;
use vstd::string::*;

verus! {

/// A path component separator, on either of the platforms' conventions.
pub open spec fn is_separator(c: char) -> bool {
    c == '/' || c == '\\'
}

/// `dir` followed by `name`, with one separator between them unless `dir`
/// already ends with one.
pub open spec fn joined(dir: Seq<char>, name: Seq<char>) -> Seq<char> {
    if dir.len() > 0 && is_separator(dir.last()) {
        dir + name
    } else {
        dir + seq!['/'] + name
    }
}

/// The quarantine directory of a scan target.
pub open spec fn quarantine_of(target: Seq<char>) -> Seq<char> {
    joined(target, seq!['d', 'u', 'p', 'e', 's'])
}

/// Appends `name` to the directory path `dir`.
pub fn join_path(dir: &String, name: &String) -> (r: String)
    ensures
        r@ == joined(dir@, name@),
{
    let d: &str = dir.as_str();
    let n: usize = d.unicode_len();
    let ends_with_separator = n > 0 && {
        let c = d.get_char(n - 1);
        c == '/' || c == '\\'
    };
    let mut r = dir.clone();
    if !ends_with_separator {
        r.append("/");
        proof {
            reveal_strlit("/");
        }
    }
    r.append(name.as_str());
    proof {
        if n > 0 {
            assert(dir@.last() == dir@[n - 1]);
        }
    }
    r
}

/// The path of the quarantine directory under `target`.
pub fn quarantine_path(target: &String) -> (r: String)
    ensures
        r@ == quarantine_of(target@),
{
    let name = String::from_str("dupes");
    proof {
        reveal_strlit("dupes");
        assert(name@ =~= seq!['d', 'u', 'p', 'e', 's']);
    }
    join_path(target, &name)
}

} // verus!
