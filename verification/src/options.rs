//! The option records: typed containers for per-accessor-kind settings at the
//! four grouping levels (field-per-kind, field catch-all, container-per-kind
//! default, container catch-all default), and the fill-if-unset merge that
//! cascades them.
//!
//! Opaque syntax values (visibility, type expressions, `where`-clause
//! predicates, identifiers) are carried as plain strings: the engines never
//! inspect them beyond copying and comparing.

use vstd::prelude::*;

verus! {

/// Policy for dereferencing a raw-pointer field inside a generated accessor.
#[derive(Clone, Copy, Debug, PartialEq, Eq, Structural)]
pub enum DerefKind {
    /// Infer borrow mutability from context (immutable for a getter, mutable
    /// for a mutable getter or a setter).
    Auto,
    /// Force an immutable borrow.
    Deref,
    /// Force a mutable borrow, even inside an immutable-receiver getter.
    DerefMut,
}

/// A prefix/suffix slot value: either a concrete identifier, or an explicit
/// "clear" marker that permanently suppresses inheriting a value for the slot.
#[derive(Debug, PartialEq, Eq)]
pub enum SkippableIdent {
    /// A concrete identifier to splice into the method name.
    Ident(String),
    /// The explicit clear marker: distinct from an unset slot.
    Skip,
}

/// Mathematical model of [`SkippableIdent`].
pub enum SkippableIdentView {
    Ident(Seq<char>),
    Skip,
}

impl View for SkippableIdent {
    type V = SkippableIdentView;

    open spec fn view(&self) -> SkippableIdentView {
        match self {
            SkippableIdent::Ident(s) => SkippableIdentView::Ident(s@),
            SkippableIdent::Skip => SkippableIdentView::Skip,
        }
    }
}

impl Clone for SkippableIdent {
    fn clone(&self) -> (r: Self)
        ensures
            r@ == self@,
    {
        match self {
            SkippableIdent::Ident(s) => SkippableIdent::Ident(s.clone()),
            SkippableIdent::Skip => SkippableIdent::Skip,
        }
    }
}

/// A field's declared type, as far as the engines inspect it: either an opaque
/// type expression, or a raw pointer with its pointee kept separately so that
/// the dereference policy can substitute it.
#[derive(Debug, PartialEq, Eq)]
pub enum TypeExpr {
    /// Any non-pointer type, carried verbatim.
    Plain(String),
    /// A raw pointer type; `mutable` distinguishes `*mut` from `*const`.
    RawPtr { mutable: bool, pointee: String },
}

/// Mathematical model of [`TypeExpr`].
pub enum TypeExprView {
    Plain(Seq<char>),
    RawPtr { mutable: bool, pointee: Seq<char> },
}

impl View for TypeExpr {
    type V = TypeExprView;

    open spec fn view(&self) -> TypeExprView {
        match self {
            TypeExpr::Plain(s) => TypeExprView::Plain(s@),
            TypeExpr::RawPtr { mutable, pointee } => TypeExprView::RawPtr {
                mutable: *mutable,
                pointee: pointee@,
            },
        }
    }
}

impl Clone for TypeExpr {
    fn clone(&self) -> (r: Self)
        ensures
            r@ == self@,
    {
        match self {
            TypeExpr::Plain(s) => TypeExpr::Plain(s.clone()),
            TypeExpr::RawPtr { mutable, pointee } => TypeExpr::RawPtr {
                mutable: *mutable,
                pointee: pointee.clone(),
            },
        }
    }
}

/// The view of an optional viewable value.
pub open spec fn opt_view<T: View>(o: Option<T>) -> Option<T::V> {
    match o {
        Some(t) => Some(t@),
        None => None,
    }
}

/// The views of a sequence of strings (a bound set, or doc comments).
pub open spec fn str_views(v: Seq<String>) -> Seq<Seq<char>> {
    v.map_values(|s: String| s@)
}

/// Per-accessor-kind settings on one field; every member is optional, `None`
/// meaning "unset" and therefore fillable by a lower-priority layer.
#[derive(Debug, PartialEq, Eq)]
pub struct VariationOptions {
    pub owned: Option<bool>,
    pub const_fn: Option<bool>,
    pub skip: Option<bool>,
    pub cp: Option<bool>,
    pub ptr_deref: Option<DerefKind>,
    pub ty: Option<TypeExpr>,
    pub prefix: Option<SkippableIdent>,
    pub suffix: Option<SkippableIdent>,
    pub vis: Option<String>,
    pub bounds: Vec<String>,
}

/// Mathematical model of [`VariationOptions`].
#[verifier::ext_equal]
pub struct VariationOptionsView {
    pub owned: Option<bool>,
    pub const_fn: Option<bool>,
    pub skip: Option<bool>,
    pub cp: Option<bool>,
    pub ptr_deref: Option<DerefKind>,
    pub ty: Option<TypeExprView>,
    pub prefix: Option<SkippableIdentView>,
    pub suffix: Option<SkippableIdentView>,
    pub vis: Option<Seq<char>>,
    pub bounds: Seq<Seq<char>>,
}

impl View for VariationOptions {
    type V = VariationOptionsView;

    open spec fn view(&self) -> VariationOptionsView {
        VariationOptionsView {
            owned: self.owned,
            const_fn: self.const_fn,
            skip: self.skip,
            cp: self.cp,
            ptr_deref: self.ptr_deref,
            ty: opt_view(self.ty),
            prefix: opt_view(self.prefix),
            suffix: opt_view(self.suffix),
            vis: opt_view(self.vis),
            bounds: str_views(self.bounds@),
        }
    }
}

/// Default-layer settings: the same shape as [`VariationOptions`] minus `skip`
/// and `ty`, which never participate in default-layer fallback.
#[derive(Debug, PartialEq, Eq)]
pub struct VariationDefaults {
    pub owned: Option<bool>,
    pub const_fn: Option<bool>,
    pub cp: Option<bool>,
    pub ptr_deref: Option<DerefKind>,
    pub prefix: Option<SkippableIdent>,
    pub suffix: Option<SkippableIdent>,
    pub vis: Option<String>,
    pub bounds: Vec<String>,
}

/// Mathematical model of [`VariationDefaults`].
#[verifier::ext_equal]
pub struct VariationDefaultsView {
    pub owned: Option<bool>,
    pub const_fn: Option<bool>,
    pub cp: Option<bool>,
    pub ptr_deref: Option<DerefKind>,
    pub prefix: Option<SkippableIdentView>,
    pub suffix: Option<SkippableIdentView>,
    pub vis: Option<Seq<char>>,
    pub bounds: Seq<Seq<char>>,
}

impl View for VariationDefaults {
    type V = VariationDefaultsView;

    open spec fn view(&self) -> VariationDefaultsView {
        VariationDefaultsView {
            owned: self.owned,
            const_fn: self.const_fn,
            cp: self.cp,
            ptr_deref: self.ptr_deref,
            prefix: opt_view(self.prefix),
            suffix: opt_view(self.suffix),
            vis: opt_view(self.vis),
            bounds: str_views(self.bounds@),
        }
    }
}

/// One default layer per accessor kind plus the catch-all default layer.
#[derive(Debug, PartialEq, Eq)]
pub struct ContainerDefaults {
    pub all: VariationDefaults,
    pub get: VariationDefaults,
    pub get_mut: VariationDefaults,
    pub set: VariationDefaults,
}

/// Mathematical model of [`ContainerDefaults`].
#[verifier::ext_equal]
pub struct ContainerDefaultsView {
    pub all: VariationDefaultsView,
    pub get: VariationDefaultsView,
    pub get_mut: VariationDefaultsView,
    pub set: VariationDefaultsView,
}

impl View for ContainerDefaults {
    type V = ContainerDefaultsView;

    open spec fn view(&self) -> ContainerDefaultsView {
        ContainerDefaultsView {
            all: self.all@,
            get: self.get@,
            get_mut: self.get_mut@,
            set: self.set@,
        }
    }
}

/// Container-level configuration: which accessor kinds are enabled for every
/// field by default, the default layers, and the container-wide bound set
/// attached to the whole generated implementation.
#[derive(Debug, PartialEq, Eq)]
pub struct ContainerOptions {
    pub get: bool,
    pub get_mut: bool,
    pub set: bool,
    pub defaults: ContainerDefaults,
    pub bounds: Vec<String>,
}

/// Mathematical model of [`ContainerOptions`].
#[verifier::ext_equal]
pub struct ContainerOptionsView {
    pub get: bool,
    pub get_mut: bool,
    pub set: bool,
    pub defaults: ContainerDefaultsView,
    pub bounds: Seq<Seq<char>>,
}

impl View for ContainerOptions {
    type V = ContainerOptionsView;

    open spec fn view(&self) -> ContainerOptionsView {
        ContainerOptionsView {
            get: self.get,
            get_mut: self.get_mut,
            set: self.set,
            defaults: self.defaults@,
            bounds: str_views(self.bounds@),
        }
    }
}

/// Field-level configuration: a whole-field skip flag, the field catch-all
/// layer, and one optional layer per accessor kind.
#[derive(Debug, PartialEq, Eq)]
pub struct FieldOptions {
    pub skip: bool,
    pub all: Option<VariationOptions>,
    pub get: Option<VariationOptions>,
    pub get_mut: Option<VariationOptions>,
    pub set: Option<VariationOptions>,
}

/// Mathematical model of [`FieldOptions`].
#[verifier::ext_equal]
pub struct FieldOptionsView {
    pub skip: bool,
    pub all: Option<VariationOptionsView>,
    pub get: Option<VariationOptionsView>,
    pub get_mut: Option<VariationOptionsView>,
    pub set: Option<VariationOptionsView>,
}

impl View for FieldOptions {
    type V = FieldOptionsView;

    open spec fn view(&self) -> FieldOptionsView {
        FieldOptionsView {
            skip: self.skip,
            all: opt_view(self.all),
            get: opt_view(self.get),
            get_mut: opt_view(self.get_mut),
            set: opt_view(self.set),
        }
    }
}

/// Fill-if-unset: the higher-priority slot wins whenever it is set, whether it
/// holds a value, an explicit `false`, or a clear marker.
pub open spec fn fill<A>(hi: Option<A>, lo: Option<A>) -> Option<A> {
    if hi is Some {
        hi
    } else {
        lo
    }
}

/// Bound sets cascade wholesale: an empty set defers entirely to the
/// next layer, a non-empty one is kept verbatim, never unioned.
pub open spec fn fill_bounds(hi: Seq<Seq<char>>, lo: Seq<Seq<char>>) -> Seq<Seq<char>> {
    if hi.len() == 0 {
        lo
    } else {
        hi
    }
}

/// The defaults-shaped part of a field catch-all layer: `skip` and `ty` are
/// dropped, since they never participate in default-layer fallback.
pub open spec fn spec_as_defaults(o: VariationOptionsView) -> VariationDefaultsView {
    VariationDefaultsView {
        owned: o.owned,
        const_fn: o.const_fn,
        cp: o.cp,
        ptr_deref: o.ptr_deref,
        prefix: o.prefix,
        suffix: o.suffix,
        vis: o.vis,
        bounds: o.bounds,
    }
}

/// A working record seeded from a default layer alone: `skip` and `ty` start
/// unset, everything else is taken from the layer.
pub open spec fn spec_from_defaults(d: VariationDefaultsView) -> VariationOptionsView {
    VariationOptionsView {
        owned: d.owned,
        const_fn: d.const_fn,
        skip: None,
        cp: d.cp,
        ptr_deref: d.ptr_deref,
        ty: None,
        prefix: d.prefix,
        suffix: d.suffix,
        vis: d.vis,
        bounds: d.bounds,
    }
}

/// One cascade step: every unset slot of `o` is filled from `d`; slots already
/// set in `o` are immutable. `skip` and `ty` are never filled.
pub open spec fn spec_fill_from_defaults(
    o: VariationOptionsView,
    d: VariationDefaultsView,
) -> VariationOptionsView {
    VariationOptionsView {
        owned: fill(o.owned, d.owned),
        const_fn: fill(o.const_fn, d.const_fn),
        skip: o.skip,
        cp: fill(o.cp, d.cp),
        ptr_deref: fill(o.ptr_deref, d.ptr_deref),
        ty: o.ty,
        prefix: fill(o.prefix, d.prefix),
        suffix: fill(o.suffix, d.suffix),
        vis: fill(o.vis, d.vis),
        bounds: fill_bounds(o.bounds, d.bounds),
    }
}

/// The cascade step against an optional field catch-all layer: absent means no
/// filling at all.
pub open spec fn spec_fill_all(
    o: VariationOptionsView,
    d: Option<VariationOptionsView>,
) -> VariationOptionsView {
    match d {
        Some(a) => spec_fill_from_defaults(o, spec_as_defaults(a)),
        None => o,
    }
}

/// Clones a string vector; the views are preserved element by element.
pub(crate) fn clone_strings(v: &Vec<String>) -> (r: Vec<String>)
    ensures
        str_views(r@) == str_views(v@),
{
    let r = v.clone();
    proof {
        assert forall|i: int| 0 <= i < r@.len() implies r@[i]@ == v@[i]@ by {
            assert(cloned::<String>(v@[i], r@[i]));
        }
        assert(str_views(r@) =~= str_views(v@));
    }
    r
}

/// Clones an optional identifier slot, preserving its view.
pub(crate) fn clone_opt_ident(o: &Option<SkippableIdent>) -> (r: Option<SkippableIdent>)
    ensures
        opt_view(r) == opt_view(*o),
{
    match o {
        Some(id) => Some(id.clone()),
        None => None,
    }
}

/// Clones an optional opaque string slot, preserving its view.
pub(crate) fn clone_opt_string(o: &Option<String>) -> (r: Option<String>)
    ensures
        opt_view(r) == opt_view(*o),
{
    match o {
        Some(s) => Some(s.clone()),
        None => None,
    }
}

/// Clones an optional type expression, preserving its view.
pub(crate) fn clone_opt_ty(o: &Option<TypeExpr>) -> (r: Option<TypeExpr>)
    ensures
        opt_view(r) == opt_view(*o),
{
    match o {
        Some(t) => Some(t.clone()),
        None => None,
    }
}

impl Clone for VariationOptions {
    fn clone(&self) -> (r: Self)
        ensures
            r@ == self@,
    {
        let r = VariationOptions {
            owned: self.owned,
            const_fn: self.const_fn,
            skip: self.skip,
            cp: self.cp,
            ptr_deref: self.ptr_deref,
            ty: clone_opt_ty(&self.ty),
            prefix: clone_opt_ident(&self.prefix),
            suffix: clone_opt_ident(&self.suffix),
            vis: clone_opt_string(&self.vis),
            bounds: clone_strings(&self.bounds),
        };
        proof {
            assert(r@ =~= self@);
        }
        r
    }
}

impl VariationOptions {
    /// Seeds a working record from a default layer alone; `skip` and `ty`
    /// start unset.
    pub fn from_defaults(defaults: &VariationDefaults) -> (r: Self)
        ensures
            r@ == spec_from_defaults(defaults@),
    {
        let r = VariationOptions {
            owned: defaults.owned,
            const_fn: defaults.const_fn,
            skip: None,
            cp: defaults.cp,
            ptr_deref: defaults.ptr_deref,
            ty: None,
            prefix: clone_opt_ident(&defaults.prefix),
            suffix: clone_opt_ident(&defaults.suffix),
            vis: clone_opt_string(&defaults.vis),
            bounds: clone_strings(&defaults.bounds),
        };
        proof {
            assert(r@ =~= spec_from_defaults(defaults@));
        }
        r
    }

    /// Fills every still-unset slot from a container default layer; slots that
    /// are already set, including explicit `false` and clear markers, are kept.
    pub fn assign_defaults_from_struct(&mut self, defaults: &VariationDefaults)
        ensures
            final(self)@ == spec_fill_from_defaults(old(self)@, defaults@),
    {
        if self.owned.is_none() {
            self.owned = defaults.owned;
        }
        if self.const_fn.is_none() {
            self.const_fn = defaults.const_fn;
        }
        if self.cp.is_none() {
            self.cp = defaults.cp;
        }
        if self.ptr_deref.is_none() {
            self.ptr_deref = defaults.ptr_deref;
        }
        if self.prefix.is_none() {
            self.prefix = clone_opt_ident(&defaults.prefix);
        }
        if self.suffix.is_none() {
            self.suffix = clone_opt_ident(&defaults.suffix);
        }
        if self.vis.is_none() {
            self.vis = clone_opt_string(&defaults.vis);
        }
        self.apply_default_bounds(&defaults.bounds);
        proof {
            assert(final(self)@ =~= spec_fill_from_defaults(old(self)@, defaults@));
        }
    }

    /// Fills every still-unset slot from the field's catch-all layer, if one
    /// exists. `skip` and `ty` are not filled: they are meaningful only on the
    /// layer the working record was seeded from.
    pub fn assign_defaults_from_prop_all(&mut self, defaults: &Option<VariationOptions>)
        ensures
            final(self)@ == spec_fill_all(old(self)@, opt_view(*defaults)),
    {
        match defaults {
            Some(d) => {
                if self.owned.is_none() {
                    self.owned = d.owned;
                }
                if self.const_fn.is_none() {
                    self.const_fn = d.const_fn;
                }
                if self.cp.is_none() {
                    self.cp = d.cp;
                }
                if self.ptr_deref.is_none() {
                    self.ptr_deref = d.ptr_deref;
                }
                if self.prefix.is_none() {
                    self.prefix = clone_opt_ident(&d.prefix);
                }
                if self.suffix.is_none() {
                    self.suffix = clone_opt_ident(&d.suffix);
                }
                if self.vis.is_none() {
                    self.vis = clone_opt_string(&d.vis);
                }
                self.apply_default_bounds(&d.bounds);
                proof {
                    assert(final(self)@ =~= spec_fill_all(old(self)@, opt_view(*defaults)));
                }
            },
            None => {},
        }
    }

    /// Replaces an empty bound set wholesale with the next layer's set; a
    /// non-empty set is kept verbatim.
    fn apply_default_bounds(&mut self, default_bounds: &Vec<String>)
        ensures
            final(self)@ == (VariationOptionsView {
                bounds: fill_bounds(str_views(old(self).bounds@), str_views(default_bounds@)),
                ..old(self)@
            }),
    {
        if self.bounds.is_empty() && !default_bounds.is_empty() {
            self.bounds = clone_strings(default_bounds);
        }
        proof {
            assert(final(self)@ =~= (VariationOptionsView {
                bounds: fill_bounds(str_views(old(self).bounds@), str_views(default_bounds@)),
                ..old(self)@
            }));
        }
    }
}

} // verus!
