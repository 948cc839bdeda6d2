//! Configuration choices the surrounding command-line surface selects.
//!
//! The canonical variant lists and the externally visible name of each
//! variant live here; the argument-parsing shell wraps them.

use vstd::prelude::*;
use vstd::string::StringExecFns;

verus! {

/// The clock used for measuring samples.
#[derive(Clone, Copy, Debug, PartialEq, Eq, Structural)]
pub enum TimerKind {
    /// The operating system's monotonic clock.
    Os,
    /// The CPU's timestamp counter.
    Tsc,
}

/// How benchmark output is laid out.
#[derive(Clone, Copy, Debug, PartialEq, Eq, Structural)]
pub enum FormatStyle {
    /// Full human-oriented output.
    Pretty,
    /// Compact machine-oriented output.
    Terse,
}

/// The attribute benchmarks are sorted by.
#[derive(Clone, Copy, Debug, PartialEq, Eq, Structural)]
pub enum SortingAttr {
    /// Sort by benchmark kind.
    Kind,
    /// Sort by benchmark name.
    Name,
    /// Sort by source location.
    Location,
}

impl TimerKind {
    /// The externally visible name of this variant.
    pub open spec fn name_spec(self) -> Seq<char> {
        match self {
            TimerKind::Os => "os"@,
            TimerKind::Tsc => "tsc"@,
        }
    }

    /// The externally visible name of this variant.
    pub fn name(&self) -> (r: String)
        ensures
            r@ == self.name_spec(),
    {
        match self {
            TimerKind::Os => String::from_str("os"),
            TimerKind::Tsc => String::from_str("tsc"),
        }
    }

    /// All variants, in declaration order.
    pub fn all() -> (r: Vec<TimerKind>)
        ensures
            r@ == seq![TimerKind::Os, TimerKind::Tsc],
    {
        let mut v: Vec<TimerKind> = Vec::new();
        v.push(TimerKind::Os);
        v.push(TimerKind::Tsc);
        proof {
            assert(v@ =~= seq![TimerKind::Os, TimerKind::Tsc]);
        }
        v
    }
}

impl FormatStyle {
    /// The externally visible name of this variant.
    pub open spec fn name_spec(self) -> Seq<char> {
        match self {
            FormatStyle::Pretty => "pretty"@,
            FormatStyle::Terse => "terse"@,
        }
    }

    /// The externally visible name of this variant.
    pub fn name(&self) -> (r: String)
        ensures
            r@ == self.name_spec(),
    {
        match self {
            FormatStyle::Pretty => String::from_str("pretty"),
            FormatStyle::Terse => String::from_str("terse"),
        }
    }

    /// All variants, in declaration order.
    pub fn all() -> (r: Vec<FormatStyle>)
        ensures
            r@ == seq![FormatStyle::Pretty, FormatStyle::Terse],
    {
        let mut v: Vec<FormatStyle> = Vec::new();
        v.push(FormatStyle::Pretty);
        v.push(FormatStyle::Terse);
        proof {
            assert(v@ =~= seq![FormatStyle::Pretty, FormatStyle::Terse]);
        }
        v
    }
}

impl SortingAttr {
    /// The externally visible name of this variant.
    pub open spec fn name_spec(self) -> Seq<char> {
        match self {
            SortingAttr::Kind => "kind"@,
            SortingAttr::Name => "name"@,
            SortingAttr::Location => "location"@,
        }
    }

    /// The externally visible name of this variant.
    pub fn name(&self) -> (r: String)
        ensures
            r@ == self.name_spec(),
    {
        match self {
            SortingAttr::Kind => String::from_str("kind"),
            SortingAttr::Name => String::from_str("name"),
            SortingAttr::Location => String::from_str("location"),
        }
    }

    /// All variants, in declaration order.
    pub fn all() -> (r: Vec<SortingAttr>)
        ensures
            r@ == seq![SortingAttr::Kind, SortingAttr::Name, SortingAttr::Location],
    {
        let mut v: Vec<SortingAttr> = Vec::new();
        v.push(SortingAttr::Kind);
        v.push(SortingAttr::Name);
        v.push(SortingAttr::Location);
        proof {
            assert(v@ =~= seq![SortingAttr::Kind, SortingAttr::Name, SortingAttr::Location]);
        }
        v
    }
}

} // verus!
