//! Error taxonomy of buffer and buffer-view creation.
//!
//! Both unions are flat and closed; they are constructed by the external
//! creation and view operations at the point of failure and propagated
//! unchanged, never retried or recovered from. [`ViewError`] additionally
//! carries a description/display contract for logging and reporting layers:
//! the verified renderers here produce the exact strings.

use crate::usage;
use crate::usage::Usage;
use vstd::prelude::*;

verus! {

/// Error creating a buffer.
#[derive(Clone, Copy, Debug, Eq, Hash, PartialEq, Structural)]
pub enum CreationError {
    /// Required `Usage` is not supported.
    Usage(Usage),
    /// Some other problem.
    Other,
}

/// Error creating a buffer view.
#[derive(Clone, Debug, PartialEq, Eq, Structural)]
pub enum ViewError {
    /// The required usage flag is not present in the image.
    Usage(Usage),
    /// The backend refused for some reason.
    Unsupported,
}

/// `name` joined onto the rendering `s`: separated by `" | "` from what is
/// already there, bare when `s` is still empty.
pub open spec fn spec_join_flag(s: Seq<char>, name: Seq<char>) -> Seq<char> {
    if s.len() == 0 {
        name
    } else {
        s + " | "@ + name
    }
}

/// The rendering of a usage bit-field: the names of its set bits in
/// declaration order, joined with `" | "`, or `"(empty)"` when no bit is
/// set. Bits outside the nine named ones do not render.
pub open spec fn spec_usage_names(bits: u16) -> Seq<char> {
    let s = Seq::<char>::empty();
    let s = if bits & usage::TRANSFER_SRC != 0 {
        spec_join_flag(s, "TRANSFER_SRC"@)
    } else {
        s
    };
    let s = if bits & usage::TRANSFER_DST != 0 {
        spec_join_flag(s, "TRANSFER_DST"@)
    } else {
        s
    };
    let s = if bits & usage::UNIFORM != 0 {
        spec_join_flag(s, "UNIFORM"@)
    } else {
        s
    };
    let s = if bits & usage::STORAGE != 0 {
        spec_join_flag(s, "STORAGE"@)
    } else {
        s
    };
    let s = if bits & usage::UNIFORM_TEXEL != 0 {
        spec_join_flag(s, "UNIFORM_TEXEL"@)
    } else {
        s
    };
    let s = if bits & usage::STORAGE_TEXEL != 0 {
        spec_join_flag(s, "STORAGE_TEXEL"@)
    } else {
        s
    };
    let s = if bits & usage::INDEX != 0 {
        spec_join_flag(s, "INDEX"@)
    } else {
        s
    };
    let s = if bits & usage::INDIRECT != 0 {
        spec_join_flag(s, "INDIRECT"@)
    } else {
        s
    };
    let s = if bits & usage::VERTEX != 0 {
        spec_join_flag(s, "VERTEX"@)
    } else {
        s
    };
    if s.len() == 0 {
        "(empty)"@
    } else {
        s
    }
}

/// Joins `name` onto the rendering built so far; `any` says whether anything
/// was rendered yet.
fn append_flag(s: &mut String, any: bool, name: &str)
    requires
        any == (old(s)@.len() != 0),
    ensures
        final(s)@ == spec_join_flag(old(s)@, name@),
        final(s)@.len() >= name@.len(),
{
    if any {
        s.append(" | ");
        s.append(name);
    } else {
        s.append(name);
        proof {
            assert(s@ =~= name@);
        }
    }
}

/// Renders a usage bit-field as the names of its set bits in declaration
/// order, joined with `" | "`, or `"(empty)"` when no bit is set.
pub fn usage_names(u: Usage) -> (s: String)
    ensures
        s@ == spec_usage_names(u@),
{
    proof {
        reveal_strlit("TRANSFER_SRC");
        reveal_strlit("TRANSFER_DST");
        reveal_strlit("UNIFORM");
        reveal_strlit("STORAGE");
        reveal_strlit("UNIFORM_TEXEL");
        reveal_strlit("STORAGE_TEXEL");
        reveal_strlit("INDEX");
        reveal_strlit("INDIRECT");
        reveal_strlit("VERTEX");
        reveal_strlit("(empty)");
    }
    let bits = u.bits();
    let mut s = String::new();
    let mut any = false;
    if bits & usage::TRANSFER_SRC != 0 {
        append_flag(&mut s, any, "TRANSFER_SRC");
        any = true;
    }
    if bits & usage::TRANSFER_DST != 0 {
        append_flag(&mut s, any, "TRANSFER_DST");
        any = true;
    }
    if bits & usage::UNIFORM != 0 {
        append_flag(&mut s, any, "UNIFORM");
        any = true;
    }
    if bits & usage::STORAGE != 0 {
        append_flag(&mut s, any, "STORAGE");
        any = true;
    }
    if bits & usage::UNIFORM_TEXEL != 0 {
        append_flag(&mut s, any, "UNIFORM_TEXEL");
        any = true;
    }
    if bits & usage::STORAGE_TEXEL != 0 {
        append_flag(&mut s, any, "STORAGE_TEXEL");
        any = true;
    }
    if bits & usage::INDEX != 0 {
        append_flag(&mut s, any, "INDEX");
        any = true;
    }
    if bits & usage::INDIRECT != 0 {
        append_flag(&mut s, any, "INDIRECT");
        any = true;
    }
    if bits & usage::VERTEX != 0 {
        append_flag(&mut s, any, "VERTEX");
        any = true;
    }
    if !any {
        s.append("(empty)");
        proof {
            assert(s@ =~= "(empty)"@);
        }
    }
    s
}

/// The display rendering of a view error: the fixed description of the
/// variant, followed for `Usage` by `": "` and the rendering of the
/// offending usage.
pub open spec fn spec_view_error_display(e: ViewError) -> Seq<char> {
    match e {
        ViewError::Usage(u) => "The required usage flag is not present in the image"@ + ": "@
            + spec_usage_names(u@),
        ViewError::Unsupported => "The backend refused for some reason"@,
    }
}

impl ViewError {
    /// The fixed description of the error variant.
    pub fn description(&self) -> (s: &'static str)
        ensures
            match *self {
                ViewError::Usage(_) => s@ == "The required usage flag is not present in the image"@,
                ViewError::Unsupported => s@ == "The backend refused for some reason"@,
            },
    {
        match *self {
            ViewError::Usage(_) => "The required usage flag is not present in the image",
            ViewError::Unsupported => "The backend refused for some reason",
        }
    }

    /// Renders the error for display: the fixed description, followed for
    /// the `Usage` variant by the offending usage.
    pub fn display_string(&self) -> (s: String)
        ensures
            s@ == spec_view_error_display(*self),
    {
        let description = self.description();
        match *self {
            ViewError::Usage(u) => {
                let mut s = description.to_owned();
                s.append(": ");
                let names = usage_names(u);
                s.append(names.as_str());
                s
            },
            ViewError::Unsupported => description.to_owned(),
        }
    }
}

} // verus!
