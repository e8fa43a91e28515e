//! Classification of one line of an annotated `.env` file.
use vstd::prelude::*;
use crate::text::{
    has_prefix, starts_with, strip_prefix_or_keep, strip_prefix_or_whole, strip_suffix_or_keep,
    strip_suffix_or_whole, trim, trim_leading, trim_start, trimmed,
};

verus! {

/// What a line of the file stands for.
#[derive(Clone, Copy, Debug, PartialEq, Eq, Structural)]
pub enum LineKind {
    /// A `KEY=VALUE` declaration, or any line that is no annotation.
    EnvVariable,
    Responsible,
    Type,
    Secret,
    Policy,
    /// A free-text comment line.
    Description,
    Docs,
}

impl LineKind {
    pub open spec fn prefix(self) -> Seq<char> {
        match self {
            LineKind::Responsible => "# [@responsible="@,
            LineKind::Type => "# [@type="@,
            LineKind::Secret => "# [@secret="@,
            LineKind::Policy => "# [@policy="@,
            LineKind::Docs => "# [@docs="@,
            LineKind::Description => "#"@,
            LineKind::EnvVariable => ""@,
        }
    }

    pub open spec fn suffix(self) -> Seq<char> {
        match self {
            LineKind::Responsible | LineKind::Type | LineKind::Secret | LineKind::Policy
            | LineKind::Docs => "]"@,
            LineKind::Description | LineKind::EnvVariable => ""@,
        }
    }

    /// The text that opens a line of this kind.
    pub fn get_prefix(&self) -> (r: &'static str)
        ensures
            r@ == self.prefix(),
    {
        match self {
            LineKind::Responsible => "# [@responsible=",
            LineKind::Type => "# [@type=",
            LineKind::Secret => "# [@secret=",
            LineKind::Policy => "# [@policy=",
            LineKind::Docs => "# [@docs=",
            LineKind::Description => "#",
            LineKind::EnvVariable => "",
        }
    }

    /// The text that closes a line of this kind.
    pub fn get_suffix(&self) -> (r: &'static str)
        ensures
            r@ == self.suffix(),
    {
        match self {
            LineKind::Responsible | LineKind::Type | LineKind::Secret | LineKind::Policy
            | LineKind::Docs => "]",
            LineKind::Description | LineKind::EnvVariable => "",
        }
    }
}

/// The kind of a trimmed line: the first kind, in the order `Responsible`,
/// `Type`, `Secret`, `Policy`, `Docs`, `Description`, whose prefix opens it,
/// and `EnvVariable` where none does.
pub open spec fn classify(t: Seq<char>) -> LineKind {
    if has_prefix(t, LineKind::Responsible.prefix()) {
        LineKind::Responsible
    } else if has_prefix(t, LineKind::Type.prefix()) {
        LineKind::Type
    } else if has_prefix(t, LineKind::Secret.prefix()) {
        LineKind::Secret
    } else if has_prefix(t, LineKind::Policy.prefix()) {
        LineKind::Policy
    } else if has_prefix(t, LineKind::Docs.prefix()) {
        LineKind::Docs
    } else if has_prefix(t, LineKind::Description.prefix()) {
        LineKind::Description
    } else {
        LineKind::EnvVariable
    }
}

/// The payload of a trimmed line of kind `k`: its prefix is stripped where it
/// is there, then its suffix where it is there. A description, which has no
/// suffix, loses the white space that follows its `#` instead.
pub open spec fn content_of(k: LineKind, t: Seq<char>) -> Seq<char> {
    if k == LineKind::Description {
        trim_start(strip_prefix_or_keep(t, k.prefix()))
    } else {
        strip_suffix_or_keep(strip_prefix_or_keep(t, k.prefix()), k.suffix())
    }
}

/// A line of the file, trimmed, with its kind.
#[derive(Debug)]
pub struct Line {
    pub data: String,
    pub kind: LineKind,
}

impl Line {
    /// Trims `data` and classifies it.
    pub fn new(data: String) -> (r: Self)
        ensures
            r.data@ == trimmed(data@),
            r.kind == classify(trimmed(data@)),
    {
        let t = trim(data.as_str());
        let kind = if starts_with(t.as_str(), LineKind::Responsible.get_prefix()) {
            LineKind::Responsible
        } else if starts_with(t.as_str(), LineKind::Type.get_prefix()) {
            LineKind::Type
        } else if starts_with(t.as_str(), LineKind::Secret.get_prefix()) {
            LineKind::Secret
        } else if starts_with(t.as_str(), LineKind::Policy.get_prefix()) {
            LineKind::Policy
        } else if starts_with(t.as_str(), LineKind::Docs.get_prefix()) {
            LineKind::Docs
        } else if starts_with(t.as_str(), LineKind::Description.get_prefix()) {
            LineKind::Description
        } else {
            LineKind::EnvVariable
        };
        Line { data: t, kind }
    }

    /// The payload of the line, without the markers of its kind.
    pub fn extract_content(&self) -> (r: String)
        ensures
            r@ == content_of(self.kind, self.data@),
    {
        let unprefixed = strip_prefix_or_whole(self.data.as_str(), self.kind.get_prefix());
        if self.kind == LineKind::Description {
            trim_leading(unprefixed.as_str())
        } else {
            strip_suffix_or_whole(unprefixed.as_str(), self.kind.get_suffix())
        }
    }
}

} // verus!
