//! Where an export goes: a filesystem path or the shared clipboard. The
//! clipboard handle itself and the default-directory probing live in the
//! shell; the library works on the path text, whose extension selects
//! the encoding.

use vstd::prelude::*;

verus! {

/// The export target. The two destinations are mutually exclusive; the
/// platform clipboard handle is owned by the shell.
#[derive(Clone, Debug)]
pub enum SaveDestination {
    RealPath(String),
    Clipboard,
}

impl SaveDestination {
    pub fn path(self) -> (r: Option<String>)
        ensures
            match self {
                SaveDestination::RealPath(p) => r matches Some(q) && q@ == p@,
                SaveDestination::Clipboard => r is None,
            },
    {
        match self {
            SaveDestination::RealPath(p) => Some(p),
            SaveDestination::Clipboard => None,
        }
    }

    pub fn is_path(&self) -> (r: bool)
        ensures
            r == (self is RealPath),
    {
        matches!(self, SaveDestination::RealPath(_))
    }

    pub fn is_clipboard(&self) -> (r: bool)
        ensures
            r == !(self is RealPath),
    {
        !self.is_path()
    }
}

/// Where a path's extension starts: one past the final component's last
/// `.`, if there is one. A dot that opens the component (a hidden file
/// such as `a/.conf`) names no extension.
pub open spec fn spec_ext_start(s: Seq<char>) -> Option<int>
    decreases s.len(),
{
    if s.len() == 0 {
        None
    } else if s.last() == '.' {
        if s.len() == 1 || s[s.len() - 2] == '/' {
            None
        } else {
            Some(s.len() as int)
        }
    } else if s.last() == '/' {
        None
    } else {
        spec_ext_start(s.drop_last())
    }
}

/// A path's extension: the text after the final component's last dot.
pub open spec fn spec_extension(s: Seq<char>) -> Option<Seq<char>> {
    match spec_ext_start(s) {
        Some(i) => Some(s.subrange(i, s.len() as int)),
        None => None,
    }
}

/// The path with its extension replaced by `png` (or `.png` appended if
/// it has none).
pub open spec fn spec_with_png_extension(s: Seq<char>) -> Seq<char> {
    match spec_ext_start(s) {
        Some(i) => s.subrange(0, i) + "png"@,
        None => s + ".png"@,
    }
}

/// Where the extension of `path` starts, if it has one.
pub fn ext_start(path: &str) -> (r: Option<usize>)
    ensures
        match r {
            Some(i) => spec_ext_start(path@) == Some(i as int) && i <= path@.len(),
            None => spec_ext_start(path@) is None,
        },
{
    let n: usize = path.unicode_len();
    let mut i: usize = n;
    proof {
        assert(path@.subrange(0, n as int) =~= path@);
    }
    while i > 0
        invariant
            i <= n,
            n == path@.len(),
            spec_ext_start(path@) == spec_ext_start(path@.subrange(0, i as int)),
        decreases i,
    {
        let ghost pre = path@.subrange(0, i as int);
        let c: char = path.get_char(i - 1);
        proof {
            assert(pre.last() == path@[i - 1]);
            assert(pre.drop_last() =~= path@.subrange(0, i - 1));
        }
        if c == '.' {
            if i == 1 {
                return None;
            }
            let before: char = path.get_char(i - 2);
            proof {
                assert(pre[i - 2] == path@[i - 2]);
            }
            if before == '/' {
                return None;
            }
            return Some(i);
        }
        if c == '/' {
            return None;
        }
        i = i - 1;
    }
    proof {
        assert(path@.subrange(0, 0) =~= Seq::<char>::empty());
    }
    None
}

/// The extension of `path`, if it has one.
pub fn extension_of(path: &str) -> (r: Option<String>)
    ensures
        match r {
            Some(e) => spec_extension(path@) == Some(e@),
            None => spec_extension(path@) is None,
        },
{
    match ext_start(path) {
        Some(i) => {
            let n: usize = path.unicode_len();
            Some(String::from_str(path.substring_char(i, n)))
        },
        None => None,
    }
}

/// `path` with its extension replaced by `png`, or `.png` appended.
pub fn with_png_extension(path: &str) -> (r: String)
    ensures
        r@ == spec_with_png_extension(path@),
{
    proof {
        reveal_strlit("png");
        reveal_strlit(".png");
    }
    match ext_start(path) {
        Some(i) => {
            let stem: String = String::from_str(path.substring_char(0, i));
            stem.concat("png")
        },
        None => {
            let whole: String = String::from_str(path);
            whole.concat(".png")
        },
    }
}

} // verus!
