//! Paths of the stack's home directory, as text.
//!
//! A path is joined as `PathBuf::join` does it on Unix: an absolute segment
//! replaces the base, otherwise a `/` is put between the two unless the base
//! is empty or already ends with one.

use vstd::prelude::*;
use crate::text::{has_prefix, has_suffix};

verus! {

/// The text of `base.join(seg)`.
pub open spec fn join(base: Seq<char>, seg: Seq<char>) -> Seq<char> {
    if seg.len() > 0 && seg[0] == '/' {
        seg
    } else if base.len() == 0 {
        seg
    } else if base.last() == '/' {
        base + seg
    } else {
        base + seq!['/'] + seg
    }
}

/// A path is absolute when it starts with `/`.
pub open spec fn is_absolute(p: Seq<char>) -> bool {
    p.len() > 0 && p[0] == '/'
}

/// The home directory of the stack under the user's home `home`
/// (`/tmp` when the user has none).
pub open spec fn default_path(home: Option<Seq<char>>) -> Seq<char> {
    join(
        match home {
            Some(h) => h,
            None => "/tmp"@,
        },
        ".lekstack"@,
    )
}

/// `base.join(seg)` as text.
pub fn path_join(base: &str, seg: &str) -> (r: String)
    ensures
        r@ == join(base@, seg@),
{
    let seg_len = seg.unicode_len();
    let base_len = base.unicode_len();
    if seg_len > 0 && seg.get_char(0) == '/' {
        seg.to_owned()
    } else if base_len == 0 {
        seg.to_owned()
    } else if base.get_char(base_len - 1) == '/' {
        let mut r = base.to_owned();
        r.append(seg);
        r
    } else {
        let mut r = base.to_owned();
        r.append("/");
        proof {
            reveal_strlit("/");
        }
        r.append(seg);
        assert(r@ =~= base@ + seq!['/'] + seg@);
        r
    }
}

/// The stack's home directory, `$HOME/.lekstack`, for the value of `HOME`
/// (`None` when it is not set).
pub fn get_default_path(home: Option<&str>) -> (r: String)
    ensures
        r@ == default_path(
            match home {
                Some(h) => Some(h@),
                None => None,
            },
        ),
{
    match home {
        Some(h) => path_join(h, ".lekstack"),
        None => path_join("/tmp", ".lekstack"),
    }
}

/// Joining a relative segment to a base that ends without a separator puts
/// exactly one `/` between them, and the result keeps the base as its prefix.
pub proof fn law_join_relative(base: Seq<char>, seg: Seq<char>)
    requires
        !is_absolute(seg),
        base.len() > 0,
    ensures
        has_prefix(join(base, seg), base),
        base.last() != '/' ==> join(base, seg) == base + seq!['/'] + seg,
        has_suffix(join(base, seg), seg),
{
    let j = join(base, seg);
    if base.last() == '/' {
        assert(j.subrange(0, base.len() as int) =~= base);
        assert(j.subrange(j.len() - seg.len(), j.len() as int) =~= seg);
    } else {
        assert(j.subrange(0, base.len() as int) =~= base);
        assert(j.subrange(j.len() - seg.len(), j.len() as int) =~= seg);
    }
}

/// The stack's home is always absolute when the user's home is, and it
/// always ends with `.lekstack`.
pub proof fn law_default_path_shape(home: Option<Seq<char>>)
    requires
        home matches Some(h) ==> is_absolute(h),
    ensures
        is_absolute(default_path(home)),
        has_suffix(default_path(home), ".lekstack"@),
{
    reveal_strlit(".lekstack");
    reveal_strlit("/tmp");
    let h = match home {
        Some(h) => h,
        None => "/tmp"@,
    };
    law_join_relative(h, ".lekstack"@);
    assert(join(h, ".lekstack"@)[0] == h[0]) by {
        assert(has_prefix(join(h, ".lekstack"@), h));
        assert(join(h, ".lekstack"@).subrange(0, h.len() as int)[0] == h[0]);
    }
}

} // verus!
