//! The naming composer: each accessor kind carries a built-in naming
//! convention (a fixed optional prefix and suffix), and the resolved
//! prefix/suffix slots of a field compose with the field name into the
//! emitted method name, with `_` as the separator.

use vstd::prelude::*;
use vstd::string::StringExecFns;

use crate::options::{SkippableIdent, SkippableIdentView, opt_view};

verus! {

/// The three accessor kinds, processed in this fixed order for every field.
#[derive(Clone, Copy, Debug, PartialEq, Eq, Structural)]
pub enum AccessorKind {
    /// Read accessor.
    Get,
    /// Mutable-read accessor.
    GetMut,
    /// Write accessor.
    Setter,
}

/// The built-in naming convention of one accessor kind: a fixed optional
/// prefix and a fixed optional suffix, adopted by any slot that no layer has
/// set or cleared.
#[derive(Debug, PartialEq, Eq)]
pub struct Naming {
    pub prefix: Option<String>,
    pub suffix: Option<String>,
}

/// Mathematical model of [`Naming`].
#[verifier::ext_equal]
pub struct NamingView {
    pub prefix: Option<Seq<char>>,
    pub suffix: Option<Seq<char>>,
}

impl View for Naming {
    type V = NamingView;

    open spec fn view(&self) -> NamingView {
        NamingView { prefix: opt_view(self.prefix), suffix: opt_view(self.suffix) }
    }
}

/// The convention associated with each kind: `Get` has no fixed affixes,
/// `GetMut` a fixed `mut` suffix, `Set` a fixed `set` prefix.
pub open spec fn spec_naming(kind: AccessorKind) -> NamingView {
    match kind {
        AccessorKind::Get => NamingView { prefix: None, suffix: None },
        AccessorKind::GetMut => NamingView { prefix: None, suffix: Some(seq!['m', 'u', 't']) },
        AccessorKind::Setter => NamingView { prefix: Some(seq!['s', 'e', 't']), suffix: None },
    }
}

impl Naming {
    /// Builds the naming convention of the given accessor kind.
    pub fn for_kind(kind: AccessorKind) -> (n: Naming)
        ensures
            n@ == spec_naming(kind),
    {
        match kind {
            AccessorKind::Get => Naming { prefix: None, suffix: None },
            AccessorKind::GetMut => {
                let s = String::from_str("mut");
                proof {
                    reveal_strlit("mut");
                    assert(s@ =~= seq!['m', 'u', 't']);
                }
                Naming { prefix: None, suffix: Some(s) }
            },
            AccessorKind::Setter => {
                let p = String::from_str("set");
                proof {
                    reveal_strlit("set");
                    assert(p@ =~= seq!['s', 'e', 't']);
                }
                Naming { prefix: Some(p), suffix: None }
            },
        }
    }
}

/// The name contribution of a resolved prefix/suffix slot: a cleared slot
/// behaves exactly as an absent one.
pub open spec fn spec_effective(slot: Option<SkippableIdentView>) -> Option<Seq<char>> {
    match slot {
        Some(SkippableIdentView::Ident(s)) => Some(s),
        _ => None,
    }
}

/// The composed method name, over the four presence cases of the effective
/// prefix and suffix: both present gives `prefix_field_suffix`, one present
/// attaches it with a single `_`, neither leaves the field name unchanged.
pub open spec fn spec_compose(
    field: Seq<char>,
    prefix: Option<SkippableIdentView>,
    suffix: Option<SkippableIdentView>,
) -> Seq<char> {
    match (spec_effective(prefix), spec_effective(suffix)) {
        (Some(p), Some(s)) => p + seq!['_'] + field + seq!['_'] + s,
        (Some(p), None) => p + seq!['_'] + field,
        (None, Some(s)) => field + seq!['_'] + s,
        (None, None) => field,
    }
}

/// Composes the emitted method name from the field name and the resolved
/// prefix/suffix slots. Pure and total: every combination of present, absent
/// and cleared slots yields a name.
pub fn compose(
    field_name: &String,
    prefix: &Option<SkippableIdent>,
    suffix: &Option<SkippableIdent>,
) -> (r: String)
    ensures
        r@ == spec_compose(field_name@, opt_view(*prefix), opt_view(*suffix)),
{
    proof {
        reveal_strlit("_");
    }
    let mut r = String::new();
    match prefix {
        Some(SkippableIdent::Ident(p)) => {
            r.append(p.as_str());
            r.append("_");
        },
        _ => {},
    }
    r.append(field_name.as_str());
    match suffix {
        Some(SkippableIdent::Ident(s)) => {
            r.append("_");
            r.append(s.as_str());
        },
        _ => {},
    }
    proof {
        assert(r@ =~= spec_compose(field_name@, opt_view(*prefix), opt_view(*suffix)));
    }
    r
}

/// Naming composition is pure and total: the four presence combinations of
/// the effective prefix and suffix produce exactly the four documented name
/// shapes, and a cleared slot behaves as an absent one, whatever value it
/// would otherwise have inherited.
pub proof fn lemma_compose_shapes(
    field: Seq<char>,
    prefix: Option<SkippableIdentView>,
    suffix: Option<SkippableIdentView>,
)
    ensures
        spec_effective(prefix) is Some && spec_effective(suffix) is Some
            ==> spec_compose(field, prefix, suffix) == spec_effective(prefix)->0 + seq!['_']
                + field + seq!['_'] + spec_effective(suffix)->0,
        spec_effective(prefix) is Some && spec_effective(suffix) is None
            ==> spec_compose(field, prefix, suffix) == spec_effective(prefix)->0 + seq!['_']
                + field,
        spec_effective(prefix) is None && spec_effective(suffix) is Some
            ==> spec_compose(field, prefix, suffix) == field + seq!['_']
                + spec_effective(suffix)->0,
        spec_effective(prefix) is None && spec_effective(suffix) is None
            ==> spec_compose(field, prefix, suffix) == field,
        prefix == Some(SkippableIdentView::Skip) ==> spec_effective(prefix) is None,
        suffix == Some(SkippableIdentView::Skip) ==> spec_effective(suffix) is None,
{
}

/// A cleared slot yields the unmodified field name exactly as an unset one
/// does: clearing both slots, or having both absent, composes to the bare
/// field name.
pub proof fn lemma_cleared_composes_as_absent(
    field: Seq<char>,
    prefix: Option<SkippableIdentView>,
    suffix: Option<SkippableIdentView>,
)
    requires
        prefix is None || prefix == Some(SkippableIdentView::Skip),
        suffix is None || suffix == Some(SkippableIdentView::Skip),
    ensures
        spec_compose(field, prefix, suffix) == field,
{
}

} // verus!
