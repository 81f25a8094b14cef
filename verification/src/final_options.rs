//! The option resolution engine: for one (field, accessor kind) pair it merges
//! the four option layers — field-per-kind, field catch-all, container-per-kind
//! default, container catch-all default — into either "omit this accessor" or
//! one fully-populated [`FinalOptions`] record, and finally adopts the kind's
//! naming convention for any prefix/suffix slot that no layer has touched.

use vstd::prelude::*;
use vstd::string::StringExecFns;

use crate::naming::{Naming, NamingView};
use crate::options::{
    DerefKind, SkippableIdent, SkippableIdentView, TypeExpr, TypeExprView, VariationDefaults,
    VariationDefaultsView, VariationOptions, VariationOptionsView, fill, fill_bounds, opt_view,
    spec_as_defaults, spec_fill_all, spec_fill_from_defaults, spec_from_defaults, str_views,
};

verus! {

/// The fully resolved, synthesis-ready configuration of one (field, accessor
/// kind) pair: every boolean is concrete, the visibility is concrete, and the
/// prefix/suffix slots still distinguish a concrete name from an explicit
/// clear marker, which composes as no affix at all.
#[derive(Debug, PartialEq, Eq)]
pub struct FinalOptions {
    pub owned: bool,
    pub const_fn: bool,
    pub cp: bool,
    pub ptr_deref: Option<DerefKind>,
    pub vis: String,
    pub prefix: Option<SkippableIdent>,
    pub suffix: Option<SkippableIdent>,
    pub ty: Option<TypeExpr>,
    pub bounds: Vec<String>,
}

/// Mathematical model of [`FinalOptions`].
#[verifier::ext_equal]
pub struct FinalOptionsView {
    pub owned: bool,
    pub const_fn: bool,
    pub cp: bool,
    pub ptr_deref: Option<DerefKind>,
    pub vis: Seq<char>,
    pub prefix: Option<SkippableIdentView>,
    pub suffix: Option<SkippableIdentView>,
    pub ty: Option<TypeExprView>,
    pub bounds: Seq<Seq<char>>,
}

impl View for FinalOptions {
    type V = FinalOptionsView;

    open spec fn view(&self) -> FinalOptionsView {
        FinalOptionsView {
            owned: self.owned,
            const_fn: self.const_fn,
            cp: self.cp,
            ptr_deref: self.ptr_deref,
            vis: self.vis@,
            prefix: opt_view(self.prefix),
            suffix: opt_view(self.suffix),
            ty: opt_view(self.ty),
            bounds: str_views(self.bounds@),
        }
    }
}

/// The visibility a resolved accessor gets when no layer sets one: public.
pub open spec fn spec_default_vis() -> Seq<char> {
    seq!['p', 'u', 'b']
}

/// Materialization of a fully merged working record: unset booleans become
/// `false`, an unset visibility becomes public, an unset bound set stays
/// empty; `skip` has already been decided and does not survive.
pub open spec fn spec_materialize(w: VariationOptionsView) -> FinalOptionsView {
    FinalOptionsView {
        owned: w.owned == Some(true),
        const_fn: w.const_fn == Some(true),
        cp: w.cp == Some(true),
        ptr_deref: w.ptr_deref,
        vis: match w.vis {
            Some(v) => v,
            None => spec_default_vis(),
        },
        prefix: w.prefix,
        suffix: w.suffix,
        ty: w.ty,
        bounds: w.bounds,
    }
}

/// Adoption of the naming convention: a slot that is still unset — never set
/// nor cleared by any layer — takes the convention's fixed affix; a set or
/// cleared slot is kept.
pub open spec fn spec_apply_naming(f: FinalOptionsView, n: NamingView) -> FinalOptionsView {
    FinalOptionsView {
        owned: f.owned,
        const_fn: f.const_fn,
        cp: f.cp,
        ptr_deref: f.ptr_deref,
        vis: f.vis,
        prefix: if f.prefix is None {
            match n.prefix {
                Some(p) => Some(SkippableIdentView::Ident(p)),
                None => None,
            }
        } else {
            f.prefix
        },
        suffix: if f.suffix is None {
            match n.suffix {
                Some(s) => Some(SkippableIdentView::Ident(s)),
                None => None,
            }
        } else {
            f.suffix
        },
        ty: f.ty,
        bounds: f.bounds,
    }
}

/// The whole resolution algorithm for one (field, accessor kind) pair.
///
/// - A field-per-kind layer whose `skip` is explicitly `true` omits the
///   accessor outright, before any merge.
/// - A present field-per-kind layer seeds the working record, then the field
///   catch-all, the container-per-kind default and the container catch-all
///   default fill still-unset slots, in that order.
/// - An absent field-per-kind layer contributes an accessor only when the
///   container enables the kind by default; the working record is then seeded
///   from the field catch-all (or from the container-per-kind default) and the
///   remaining layers fill it. A catch-all whose `skip` is explicitly `true`
///   omits the accessor here as well.
/// - Materialization concretizes the record and the naming convention fills
///   the untouched prefix/suffix slots.
pub open spec fn spec_resolve(
    enable_by_default: bool,
    defaults_from_struct: VariationDefaultsView,
    naming: NamingView,
    opts: Option<VariationOptionsView>,
    opts_all_field: Option<VariationOptionsView>,
    opts_all_container: VariationDefaultsView,
) -> Option<FinalOptionsView> {
    match opts {
        Some(o) => {
            if o.skip == Some(true) {
                None
            } else {
                let w = spec_fill_from_defaults(
                    spec_fill_from_defaults(
                        spec_fill_all(o, opts_all_field),
                        defaults_from_struct,
                    ),
                    opts_all_container,
                );
                Some(spec_apply_naming(spec_materialize(w), naming))
            }
        },
        None => {
            if enable_by_default {
                let seed = match opts_all_field {
                    Some(a) => spec_fill_from_defaults(a, defaults_from_struct),
                    None => spec_from_defaults(defaults_from_struct),
                };
                let w = spec_fill_from_defaults(seed, opts_all_container);
                if w.skip == Some(true) {
                    None
                } else {
                    Some(spec_apply_naming(spec_materialize(w), naming))
                }
            } else {
                None
            }
        },
    }
}

impl FinalOptions {
    /// Resolves the four option layers of one (field, accessor kind) pair into
    /// either `None` ("omit this accessor") or the fully-populated record.
    ///
    /// `None` is returned exactly when the field-per-kind layer skips the
    /// accessor explicitly, when the kind is neither enabled by default nor
    /// configured on the field, or when the accessor only arises from a field
    /// catch-all whose `skip` is explicitly `true`.
    pub fn new(
        enable_by_default: bool,
        defaults_from_struct: &VariationDefaults,
        defaults_for_variation: &Naming,
        opts: Option<VariationOptions>,
        opts_all_field: &Option<VariationOptions>,
        opts_all_container: &VariationDefaults,
    ) -> (r: Option<FinalOptions>)
        ensures
            opt_view(r) == spec_resolve(
                enable_by_default,
                defaults_from_struct@,
                defaults_for_variation@,
                opt_view(opts),
                opt_view(*opts_all_field),
                opts_all_container@,
            ),
    {
        let mut work: VariationOptions = match opts {
            Some(o) => {
                if matches!(o.skip, Some(true)) {
                    return None;
                }
                let mut o = o;
                o.assign_defaults_from_prop_all(opts_all_field);
                o.assign_defaults_from_struct(defaults_from_struct);
                o
            },
            None => {
                if !enable_by_default {
                    return None;
                }
                match opts_all_field {
                    Some(a) => {
                        let mut w = a.clone();
                        w.assign_defaults_from_struct(defaults_from_struct);
                        w
                    },
                    None => VariationOptions::from_defaults(defaults_from_struct),
                }
            },
        };
        work.assign_defaults_from_struct(opts_all_container);
        if matches!(work.skip, Some(true)) {
            return None;
        }
        let VariationOptions { owned, const_fn, skip: _, cp, ptr_deref, ty, prefix, suffix, vis, bounds } =
            work;
        let mut out = FinalOptions {
            owned: owned.unwrap_or(false),
            const_fn: const_fn.unwrap_or(false),
            cp: cp.unwrap_or(false),
            ptr_deref,
            vis: match vis {
                Some(v) => v,
                None => {
                    let p = String::from_str("pub");
                    proof {
                        reveal_strlit("pub");
                        assert(p@ =~= spec_default_vis());
                    }
                    p
                },
            },
            prefix,
            suffix,
            ty,
            bounds,
        };
        out.apply_naming_defaults(defaults_for_variation);
        proof {
            assert(out@ =~= spec_resolve(
                enable_by_default,
                defaults_from_struct@,
                defaults_for_variation@,
                opt_view(opts),
                opt_view(*opts_all_field),
                opts_all_container@,
            )->0);
        }
        Some(out)
    }

    /// Fills the prefix/suffix slots that no layer has set or cleared with the
    /// accessor kind's fixed naming convention.
    pub fn apply_naming_defaults(&mut self, defaults: &Naming)
        ensures
            final(self)@ == spec_apply_naming(old(self)@, defaults@),
    {
        if self.prefix.is_none() {
            if let Some(p) = &defaults.prefix {
                self.prefix = Some(SkippableIdent::Ident(p.clone()));
            }
        }
        if self.suffix.is_none() {
            if let Some(s) = &defaults.suffix {
                self.suffix = Some(SkippableIdent::Ident(s.clone()));
            }
        }
        proof {
            assert(final(self)@ =~= spec_apply_naming(old(self)@, defaults@));
        }
    }
}

/// The first set slot among the four layers, highest priority first.
pub open spec fn first_set4<A>(
    a: Option<A>,
    b: Option<A>,
    c: Option<A>,
    d: Option<A>,
) -> Option<A> {
    fill(fill(fill(a, b), c), d)
}

/// The first non-empty bound set among the four layers, highest priority
/// first.
pub open spec fn first_bounds4(
    a: Seq<Seq<char>>,
    b: Seq<Seq<char>>,
    c: Seq<Seq<char>>,
    d: Seq<Seq<char>>,
) -> Seq<Seq<char>> {
    fill_bounds(fill_bounds(fill_bounds(a, b), c), d)
}

/// An all-unset default layer, standing in for an absent field catch-all.
pub open spec fn spec_empty_defaults() -> VariationDefaultsView {
    VariationDefaultsView {
        owned: None,
        const_fn: None,
        cp: None,
        ptr_deref: None,
        prefix: None,
        suffix: None,
        vis: None,
        bounds: Seq::empty(),
    }
}

/// The defaults-shaped contribution of the field catch-all layer: absent
/// contributes nothing.
pub open spec fn spec_layer_or_empty(fa: Option<VariationOptionsView>) -> VariationDefaultsView {
    match fa {
        Some(a) => spec_as_defaults(a),
        None => spec_empty_defaults(),
    }
}

/// The cascade picks the first set value: whichever layer sets a slot while
/// every higher-priority layer leaves it unset decides the slot.
pub proof fn lemma_first_set<A>(a: Option<A>, b: Option<A>, c: Option<A>, d: Option<A>)
    ensures
        a is Some ==> first_set4(a, b, c, d) == a,
        a is None && b is Some ==> first_set4(a, b, c, d) == b,
        a is None && b is None && c is Some ==> first_set4(a, b, c, d) == c,
        a is None && b is None && c is None ==> first_set4(a, b, c, d) == d,
{
}

/// Precedence monotonicity: when the field-per-kind layer is present and does
/// not skip, resolution succeeds, and every slot of the result is exactly the
/// first set value among field-per-kind, field catch-all, container-per-kind
/// default and container catch-all default — materialized with the documented
/// fallbacks (`false` for unset booleans, public for an unset visibility, the
/// naming convention for untouched affix slots), and with `ty` taken from the
/// field-per-kind layer alone.
pub proof fn lemma_precedence(
    enable_by_default: bool,
    ck: VariationDefaultsView,
    naming: NamingView,
    o: VariationOptionsView,
    fa: Option<VariationOptionsView>,
    ca: VariationDefaultsView,
)
    requires
        o.skip != Some(true),
    ensures
        spec_resolve(enable_by_default, ck, naming, Some(o), fa, ca) matches Some(r) && {
            let fl = spec_layer_or_empty(fa);
            &&& r.owned == (first_set4(o.owned, fl.owned, ck.owned, ca.owned) == Some(true))
            &&& r.const_fn == (first_set4(o.const_fn, fl.const_fn, ck.const_fn, ca.const_fn)
                == Some(true))
            &&& r.cp == (first_set4(o.cp, fl.cp, ck.cp, ca.cp) == Some(true))
            &&& r.ptr_deref == first_set4(o.ptr_deref, fl.ptr_deref, ck.ptr_deref, ca.ptr_deref)
            &&& r.vis == match first_set4(o.vis, fl.vis, ck.vis, ca.vis) {
                Some(v) => v,
                None => spec_default_vis(),
            }
            &&& r.ty == o.ty
            &&& r.prefix == fill(
                first_set4(o.prefix, fl.prefix, ck.prefix, ca.prefix),
                match naming.prefix {
                    Some(p) => Some(SkippableIdentView::Ident(p)),
                    None => None,
                },
            )
            &&& r.suffix == fill(
                first_set4(o.suffix, fl.suffix, ck.suffix, ca.suffix),
                match naming.suffix {
                    Some(s) => Some(SkippableIdentView::Ident(s)),
                    None => None,
                },
            )
            &&& r.bounds == first_bounds4(o.bounds, fl.bounds, ck.bounds, ca.bounds)
        },
{
    if fa is None && o.bounds.len() == 0 {
        assert(fill_bounds(o.bounds, spec_empty_defaults().bounds) =~= o.bounds);
    }
}

/// Skip short-circuit: a field-per-kind `skip = true` omits the accessor
/// before any merge, whatever the container enables by default and whatever
/// any layer sets otherwise.
pub proof fn lemma_skip_short_circuit(
    enable_by_default: bool,
    ck: VariationDefaultsView,
    naming: NamingView,
    o: VariationOptionsView,
    fa: Option<VariationOptionsView>,
    ca: VariationDefaultsView,
)
    requires
        o.skip == Some(true),
    ensures
        spec_resolve(enable_by_default, ck, naming, Some(o), fa, ca) is None,
{
}

/// When an accessor is owed: resolution succeeds exactly when the
/// field-per-kind layer is present and does not skip, or when the layer is
/// absent, the kind is enabled by default, and no present field catch-all
/// skips.
pub proof fn lemma_resolve_some_iff(
    enable_by_default: bool,
    ck: VariationDefaultsView,
    naming: NamingView,
    fk: Option<VariationOptionsView>,
    fa: Option<VariationOptionsView>,
    ca: VariationDefaultsView,
)
    ensures
        spec_resolve(enable_by_default, ck, naming, fk, fa, ca) is Some <==> match fk {
            Some(o) => o.skip != Some(true),
            None => enable_by_default && match fa {
                Some(a) => a.skip != Some(true),
                None => true,
            },
        },
{
}

/// Precedence for a field without a per-kind layer: when the kind is enabled
/// by default and the field catch-all does not skip, every slot resolves to
/// the first set value among field catch-all, container-per-kind default and
/// container catch-all default, with the documented fallbacks; `ty` can come
/// only from the field catch-all.
pub proof fn lemma_precedence_defaulted(
    enable_by_default: bool,
    ck: VariationDefaultsView,
    naming: NamingView,
    fa: Option<VariationOptionsView>,
    ca: VariationDefaultsView,
)
    requires
        enable_by_default,
        fa matches Some(a) ==> a.skip != Some(true),
    ensures
        spec_resolve(enable_by_default, ck, naming, None, fa, ca) matches Some(r) && {
            let fl = spec_layer_or_empty(fa);
            &&& r.owned == (first_set4(None, fl.owned, ck.owned, ca.owned) == Some(true))
            &&& r.const_fn == (first_set4(None, fl.const_fn, ck.const_fn, ca.const_fn)
                == Some(true))
            &&& r.cp == (first_set4(None, fl.cp, ck.cp, ca.cp) == Some(true))
            &&& r.ptr_deref == first_set4(None, fl.ptr_deref, ck.ptr_deref, ca.ptr_deref)
            &&& r.vis == match first_set4(None, fl.vis, ck.vis, ca.vis) {
                Some(v) => v,
                None => spec_default_vis(),
            }
            &&& r.ty == match fa {
                Some(a) => a.ty,
                None => None,
            }
            &&& r.prefix == fill(
                first_set4(None, fl.prefix, ck.prefix, ca.prefix),
                match naming.prefix {
                    Some(p) => Some(SkippableIdentView::Ident(p)),
                    None => None,
                },
            )
            &&& r.suffix == fill(
                first_set4(None, fl.suffix, ck.suffix, ca.suffix),
                match naming.suffix {
                    Some(s) => Some(SkippableIdentView::Ident(s)),
                    None => None,
                },
            )
            &&& r.bounds == first_bounds4(Seq::empty(), fl.bounds, ck.bounds, ca.bounds)
        },
{
    match fa {
        Some(a) => {
            if a.bounds.len() == 0 {
                assert(a.bounds =~= Seq::<Seq<char>>::empty());
            }
        },
        None => {},
    }
}

/// Bound sets are replaced wholesale, never unioned: an empty field-level
/// bound set under a container-per-kind default with any number of predicates
/// resolves to that layer's predicates verbatim.
pub proof fn lemma_bounds_replaced_not_unioned(
    enable_by_default: bool,
    ck: VariationDefaultsView,
    naming: NamingView,
    o: VariationOptionsView,
    ca: VariationDefaultsView,
)
    requires
        o.skip != Some(true),
        o.bounds.len() == 0,
        ck.bounds.len() > 0,
    ensures
        spec_resolve(enable_by_default, ck, naming, Some(o), None, ca) matches Some(r)
            && r.bounds == ck.bounds,
{
}

} // verus!
