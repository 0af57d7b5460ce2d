//! File names and extensions of slash-separated path strings.
//!
//! The definitions follow the rules of `std::path::Path::file_name` and
//! `Path::extension` on Unix: trailing separators and `.` components are
//! ignored, a final `..` component has no file name, and an extension is
//! what follows the last dot of the file name, provided that dot is not its
//! first character.

use vstd::prelude::*;
use vstd::string::*;
use crate::format::{spec_format_from_extension, ImgFormat};

verus! {

/// The index right after the last `/` of `s`, or zero when `s` has none.
pub open spec fn spec_seg_start(s: Seq<char>) -> int
    decreases s.len(),
{
    if s.len() == 0 {
        0
    } else if s[s.len() - 1] == '/' {
        s.len() as int
    } else {
        spec_seg_start(s.drop_last())
    }
}

/// The final file name of the path `s`, if it has one.
pub open spec fn spec_file_name(s: Seq<char>) -> Option<Seq<char>>
    decreases s.len(),
{
    if s.len() == 0 {
        None
    } else if s[s.len() - 1] == '/' {
        spec_file_name(s.drop_last())
    } else {
        let seg = s.subrange(spec_seg_start(s), s.len() as int);
        if seg == seq!['.'] {
            spec_file_name(s.drop_last())
        } else if seg == seq!['.', '.'] {
            None
        } else {
            Some(seg)
        }
    }
}

/// The index of the last `.` of `name`, or `-1` when it has none.
pub open spec fn spec_rfind_dot(name: Seq<char>) -> int
    decreases name.len(),
{
    if name.len() == 0 {
        -1
    } else if name[name.len() - 1] == '.' {
        name.len() - 1
    } else {
        spec_rfind_dot(name.drop_last())
    }
}

/// The extension of the file name `name`: what follows its last dot, unless
/// that dot is absent or is the first character.
pub open spec fn spec_extension_of_name(name: Seq<char>) -> Option<Seq<char>> {
    let k = spec_rfind_dot(name);
    if k <= 0 {
        None
    } else {
        Some(name.subrange(k + 1, name.len() as int))
    }
}

/// The extension of the path `s`, if it has a file name with one.
pub open spec fn spec_extension(s: Seq<char>) -> Option<Seq<char>> {
    match spec_file_name(s) {
        None => None,
        Some(name) => spec_extension_of_name(name),
    }
}

/// The format named by the extension of the path `s`, if any.
pub open spec fn spec_format_from_path(s: Seq<char>) -> Option<ImgFormat> {
    match spec_extension(s) {
        None => None,
        Some(ext) => spec_format_from_extension(ext),
    }
}

proof fn lemma_seg_start_at(s: Seq<char>, j: int)
    requires
        0 <= j < s.len(),
        forall|k: int| j <= k < s.len() ==> s[k] != '/',
        j > 0 ==> s[j - 1] == '/',
    ensures
        spec_seg_start(s) == j,
    decreases s.len() - j,
{
    assert(s[s.len() - 1] != '/');
    assert(spec_seg_start(s) == spec_seg_start(s.drop_last()));
    if s.len() - 1 == j {
        if j == 0 {
            assert(s.drop_last().len() == 0);
            assert(spec_seg_start(s.drop_last()) == 0);
        } else {
            assert(s.drop_last().len() == j);
            assert(s.drop_last()[j - 1] == '/');
            assert(spec_seg_start(s.drop_last()) == j);
        }
    } else {
        assert forall|k: int| j <= k < s.drop_last().len() implies s.drop_last()[k] != '/' by {
            assert(s.drop_last()[k] == s[k]);
        }
        if j > 0 {
            assert(s.drop_last()[j - 1] == s[j - 1]);
        }
        lemma_seg_start_at(s.drop_last(), j);
    }
}

proof fn lemma_rfind_dot_at(s: Seq<char>, j: int)
    requires
        -1 <= j < s.len(),
        forall|k: int| j < k < s.len() ==> s[k] != '.',
        j >= 0 ==> s[j] == '.',
    ensures
        spec_rfind_dot(s) == j,
    decreases s.len() - j,
{
    if s.len() == 0 {
    } else if s.len() - 1 == j {
    } else {
        lemma_rfind_dot_at(s.drop_last(), j);
    }
}

/// The final file name of the path `s`, if it has one.
pub fn file_name_of(s: &str) -> (r: Option<String>)
    ensures
        (r is Some) == (spec_file_name(s@) is Some),
        r matches Some(m) ==> Some(m@) == spec_file_name(s@),
    decreases s@.len(),
{
    let n = s.unicode_len();
    if n == 0 {
        return None;
    }
    if s.get_char(n - 1) == '/' {
        let prefix = s.substring_char(0, n - 1);
        proof {
            assert(prefix@ =~= s@.drop_last());
        }
        return file_name_of(prefix);
    }
    let mut j: usize = n;
    while j > 0 && s.get_char(j - 1) != '/'
        invariant
            j <= n,
            n == s@.len(),
            forall|k: int| j <= k < n ==> s@[k] != '/',
        decreases j,
    {
        j -= 1;
    }
    proof {
        lemma_seg_start_at(s@, j as int);
    }
    if n - j == 1 && s.get_char(j) == '.' {
        proof {
            assert(s@.subrange(j as int, n as int) =~= seq!['.']);
        }
        let prefix = s.substring_char(0, n - 1);
        proof {
            assert(prefix@ =~= s@.drop_last());
        }
        return file_name_of(prefix);
    }
    let seg = s.substring_char(j, n);
    proof {
        assert(seg@ == s@.subrange(spec_seg_start(s@), s@.len() as int));
        if seg@ == seq!['.'] {
            assert(seg@.len() == 1);
            assert(s@[j as int] == seg@[0]);
        }
        assert(seg@ != seq!['.']);
    }
    if n - j == 2 && s.get_char(j) == '.' && s.get_char(j + 1) == '.' {
        proof {
            assert(s@.subrange(j as int, n as int) =~= seq!['.', '.']);
        }
        return None;
    }
    proof {
        if seg@ == seq!['.', '.'] {
            assert(seg@.len() == 2);
            assert(s@[j as int] == seg@[0]);
            assert(s@[j + 1] == seg@[1]);
        }
    }
    Some(String::from_str(seg))
}

/// The extension of the path `s`, if its file name has one.
pub fn extension_of(s: &str) -> (r: Option<String>)
    ensures
        (r is Some) == (spec_extension(s@) is Some),
        r matches Some(e) ==> Some(e@) == spec_extension(s@),
{
    let name_owned = match file_name_of(s) {
        Some(m) => m,
        None => {
            return None;
        },
    };
    let name = name_owned.as_str();
    let n = name.unicode_len();
    let mut j: usize = n;
    while j > 0 && name.get_char(j - 1) != '.'
        invariant
            j <= n,
            n == name@.len(),
            forall|k: int| j <= k < n ==> name@[k] != '.',
        decreases j,
    {
        j -= 1;
    }
    proof {
        lemma_rfind_dot_at(name@, j - 1);
    }
    if j <= 1 {
        return None;
    }
    let ext = name.substring_char(j, n);
    Some(String::from_str(ext))
}

/// The format named by the extension of the path `s`, if any.
pub fn format_from_path(s: &str) -> (r: Option<ImgFormat>)
    ensures
        r == spec_format_from_path(s@),
{
    match extension_of(s) {
        Some(ext) => ImgFormat::from_extension(ext.as_str()),
        None => None,
    }
}

} // verus!
