//! The accessor synthesis engine: given a resolved [`FinalOptions`] record and
//! a field's identity and type, it produces the abstract method fragment of
//! each accessor kind — receiver mode, parameter, return type, body shape,
//! visibility, constness, bound set and computed name. Emission of concrete
//! tokens from a fragment is the downstream collaborator's job.

use vstd::prelude::*;

use crate::final_options::{FinalOptions, FinalOptionsView};
use crate::naming::{compose, spec_compose};
use crate::options::{DerefKind, TypeExpr, TypeExprView, clone_strings, str_views};

verus! {

/// A borrow marker on a return type or inside a body: `&` or `&mut`.
#[derive(Clone, Copy, Debug, PartialEq, Eq, Structural)]
pub enum RefMarker {
    Ref,
    RefMut,
}

/// The receiver mode of a synthesized method.
#[derive(Clone, Copy, Debug, PartialEq, Eq, Structural)]
pub enum Receiver {
    /// `self`: a by-value receiver.
    Value,
    /// `mut self`: a by-value receiver that the body reassigns.
    MutValue,
    /// `&self`: a shared-borrow receiver.
    Ref,
    /// `&mut self`: an exclusive-borrow receiver.
    MutRef,
}

/// The shape of a synthesized method body.
#[derive(Clone, Copy, Debug, PartialEq, Eq)]
pub enum MethodBody {
    /// Reads the field and returns it behind `marker` (by value when absent);
    /// with `ptr_deref` the access dereferences the raw pointer inside an
    /// isolated unsafe region.
    Read { marker: Option<RefMarker>, ptr_deref: bool },
    /// Assigns the new value into the field — through the pointer dereference
    /// inside an isolated unsafe region when `ptr_deref` — then returns the
    /// receiver.
    Assign { ptr_deref: bool },
}

/// The return type of a synthesized method.
#[derive(Debug, PartialEq, Eq)]
pub enum ReturnType {
    /// The type itself, by value.
    Value(TypeExpr),
    /// A borrow of the type.
    Reference { marker: RefMarker, ty: TypeExpr },
    /// The receiver type, by value.
    SelfValue,
    /// A mutable borrow of the receiver type.
    SelfMutRef,
}

/// Mathematical model of [`ReturnType`].
pub enum ReturnTypeView {
    Value(TypeExprView),
    Reference { marker: RefMarker, ty: TypeExprView },
    SelfValue,
    SelfMutRef,
}

impl View for ReturnType {
    type V = ReturnTypeView;

    open spec fn view(&self) -> ReturnTypeView {
        match self {
            ReturnType::Value(t) => ReturnTypeView::Value(t@),
            ReturnType::Reference { marker, ty } => ReturnTypeView::Reference {
                marker: *marker,
                ty: ty@,
            },
            ReturnType::SelfValue => ReturnTypeView::SelfValue,
            ReturnType::SelfMutRef => ReturnTypeView::SelfMutRef,
        }
    }
}

/// One synthesized accessor method, in abstract form.
#[derive(Debug, PartialEq, Eq)]
pub struct MethodFragment {
    pub name: String,
    /// The name of the record field the body accesses.
    pub field: String,
    pub vis: String,
    pub const_fn: bool,
    pub must_use: bool,
    pub comments: Vec<String>,
    pub receiver: Receiver,
    /// The type of the single `new_value` parameter of a write accessor;
    /// read accessors take none.
    pub param: Option<TypeExpr>,
    pub ret: ReturnType,
    pub body: MethodBody,
    pub bounds: Vec<String>,
}

/// Mathematical model of [`MethodFragment`].
#[verifier::ext_equal]
pub struct MethodFragmentView {
    pub name: Seq<char>,
    pub field: Seq<char>,
    pub vis: Seq<char>,
    pub const_fn: bool,
    pub must_use: bool,
    pub comments: Seq<Seq<char>>,
    pub receiver: Receiver,
    pub param: Option<TypeExprView>,
    pub ret: ReturnTypeView,
    pub body: MethodBody,
    pub bounds: Seq<Seq<char>>,
}

impl View for MethodFragment {
    type V = MethodFragmentView;

    open spec fn view(&self) -> MethodFragmentView {
        MethodFragmentView {
            name: self.name@,
            field: self.field@,
            vis: self.vis@,
            const_fn: self.const_fn,
            must_use: self.must_use,
            comments: str_views(self.comments@),
            receiver: self.receiver,
            param: crate::options::opt_view(self.param),
            ret: self.ret@,
            body: self.body@,
            bounds: str_views(self.bounds@),
        }
    }
}

impl View for MethodBody {
    type V = MethodBody;

    open spec fn view(&self) -> MethodBody {
        *self
    }
}

/// The borrow marker a dereference policy forces: `Auto` forces none and
/// defers to context, `Deref` forces `&`, `DerefMut` forces `&mut`.
pub open spec fn spec_deref_marker(k: DerefKind) -> Option<RefMarker> {
    match k {
        DerefKind::Auto => None,
        DerefKind::Deref => Some(RefMarker::Ref),
        DerefKind::DerefMut => Some(RefMarker::RefMut),
    }
}

impl DerefKind {
    /// The explicit borrow marker this policy forces, if any.
    pub fn try_into_tokens(self) -> (r: Option<RefMarker>)
        ensures
            r == spec_deref_marker(self),
    {
        match self {
            DerefKind::Auto => None,
            DerefKind::Deref => Some(RefMarker::Ref),
            DerefKind::DerefMut => Some(RefMarker::RefMut),
        }
    }
}

/// The effective value type: under a dereference policy a raw-pointer field
/// contributes its pointee; every other combination leaves the declared type
/// unchanged.
pub open spec fn spec_resolve_ptr_ty(base: TypeExprView, pd: Option<DerefKind>) -> TypeExprView {
    match (pd, base) {
        (Some(_), TypeExprView::RawPtr { mutable: _, pointee }) => TypeExprView::Plain(pointee),
        (_, t) => t,
    }
}

/// Substitutes a raw pointer's pointee for the pointer when a dereference
/// policy is in force; any other type is kept unchanged.
pub fn resolve_ptr_ty(base: &TypeExpr, pd: Option<DerefKind>) -> (r: TypeExpr)
    ensures
        r@ == spec_resolve_ptr_ty(base@, pd),
{
    match (pd.is_some(), base) {
        (true, TypeExpr::RawPtr { mutable: _, pointee }) => TypeExpr::Plain(pointee.clone()),
        (_, t) => t.clone(),
    }
}

/// The borrow marker of a read accessor's reference return: mutable only when
/// the dereference policy forces mutability, immutable otherwise (including
/// `Auto`, which is immutable in a read context).
pub open spec fn spec_get_marker(pd: Option<DerefKind>) -> RefMarker {
    match pd {
        Some(k) => match spec_deref_marker(k) {
            Some(m) => m,
            None => RefMarker::Ref,
        },
        None => RefMarker::Ref,
    }
}

/// The read accessor fragment: by-value return when `cp` or `owned` is set,
/// otherwise a borrow whose mutability follows the dereference policy; an
/// explicit `ty` overrides the return type verbatim but not the body shape.
pub open spec fn spec_synthesize_get(
    field: Seq<char>,
    field_ty: TypeExprView,
    o: FinalOptionsView,
    comments: Seq<Seq<char>>,
) -> MethodFragmentView {
    let marker = if o.cp || o.owned {
        None
    } else {
        Some(spec_get_marker(o.ptr_deref))
    };
    MethodFragmentView {
        name: spec_compose(field, o.prefix, o.suffix),
        field,
        vis: o.vis,
        const_fn: o.const_fn,
        must_use: true,
        comments,
        receiver: if o.owned {
            Receiver::Value
        } else {
            Receiver::Ref
        },
        param: None,
        ret: match o.ty {
            Some(t) => ReturnTypeView::Value(t),
            None => {
                let rt = spec_resolve_ptr_ty(field_ty, o.ptr_deref);
                match marker {
                    Some(m) => ReturnTypeView::Reference { marker: m, ty: rt },
                    None => ReturnTypeView::Value(rt),
                }
            },
        },
        body: MethodBody::Read { marker, ptr_deref: o.ptr_deref is Some },
        bounds: o.bounds,
    }
}

/// The mutable-read accessor fragment: always an exclusive-borrow receiver
/// and a mutable-reference return, whatever `owned` and `cp` say — mutation
/// requires exclusive access, so those flags are deliberately ignored here.
pub open spec fn spec_synthesize_get_mut(
    field: Seq<char>,
    field_ty: TypeExprView,
    o: FinalOptionsView,
    comments: Seq<Seq<char>>,
) -> MethodFragmentView {
    MethodFragmentView {
        name: spec_compose(field, o.prefix, o.suffix),
        field,
        vis: o.vis,
        const_fn: o.const_fn,
        must_use: true,
        comments,
        receiver: Receiver::MutRef,
        param: None,
        ret: match o.ty {
            Some(t) => ReturnTypeView::Value(t),
            None => ReturnTypeView::Reference {
                marker: RefMarker::RefMut,
                ty: spec_resolve_ptr_ty(field_ty, o.ptr_deref),
            },
        },
        body: MethodBody::Read {
            marker: Some(RefMarker::RefMut),
            ptr_deref: o.ptr_deref is Some,
        },
        bounds: o.bounds,
    }
}

/// The write accessor fragment: one `new_value` parameter of the effective
/// value type (an explicit `ty` types the input), assignment into the field,
/// and the receiver returned — by value when `cp` or `owned` is set, else as
/// a mutable borrow, enabling method chaining.
pub open spec fn spec_synthesize_set(
    field: Seq<char>,
    field_ty: TypeExprView,
    o: FinalOptionsView,
    comments: Seq<Seq<char>>,
) -> MethodFragmentView {
    MethodFragmentView {
        name: spec_compose(field, o.prefix, o.suffix),
        field,
        vis: o.vis,
        const_fn: o.const_fn,
        must_use: false,
        comments,
        receiver: if o.owned {
            Receiver::MutValue
        } else {
            Receiver::MutRef
        },
        param: Some(
            match o.ty {
                Some(t) => t,
                None => spec_resolve_ptr_ty(field_ty, o.ptr_deref),
            },
        ),
        ret: if o.cp || o.owned {
            ReturnTypeView::SelfValue
        } else {
            ReturnTypeView::SelfMutRef
        },
        body: MethodBody::Assign { ptr_deref: o.ptr_deref is Some },
        bounds: o.bounds,
    }
}

/// Synthesizes the read accessor of one field from its resolved options.
pub fn synthesize_get(
    field_name: &String,
    field_ty: &TypeExpr,
    opts: FinalOptions,
    comments: &Vec<String>,
) -> (m: MethodFragment)
    ensures
        m@ == spec_synthesize_get(field_name@, field_ty@, opts@, str_views(comments@)),
{
    let FinalOptions { owned, const_fn, cp, ptr_deref, vis, prefix, suffix, ty, bounds } = opts;
    let name = compose(field_name, &prefix, &suffix);
    let marker: Option<RefMarker> = if cp || owned {
        None
    } else {
        match ptr_deref {
            Some(d) => match d.try_into_tokens() {
                Some(m) => Some(m),
                None => Some(RefMarker::Ref),
            },
            None => Some(RefMarker::Ref),
        }
    };
    let has_deref = ptr_deref.is_some();
    let ret: ReturnType = match ty {
        Some(t) => ReturnType::Value(t),
        None => {
            let rt = resolve_ptr_ty(field_ty, ptr_deref);
            match marker {
                Some(mk) => ReturnType::Reference { marker: mk, ty: rt },
                None => ReturnType::Value(rt),
            }
        },
    };
    let m = MethodFragment {
        name,
        field: field_name.clone(),
        vis,
        const_fn,
        must_use: true,
        comments: clone_strings(comments),
        receiver: if owned {
            Receiver::Value
        } else {
            Receiver::Ref
        },
        param: None,
        ret,
        body: MethodBody::Read { marker, ptr_deref: has_deref },
        bounds,
    };
    proof {
        assert(m@ =~= spec_synthesize_get(field_name@, field_ty@, opts@, str_views(comments@)));
    }
    m
}

/// Synthesizes the mutable-read accessor of one field from its resolved
/// options.
pub fn synthesize_get_mut(
    field_name: &String,
    field_ty: &TypeExpr,
    opts: FinalOptions,
    comments: &Vec<String>,
) -> (m: MethodFragment)
    ensures
        m@ == spec_synthesize_get_mut(field_name@, field_ty@, opts@, str_views(comments@)),
{
    let FinalOptions { owned: _, const_fn, cp: _, ptr_deref, vis, prefix, suffix, ty, bounds } =
        opts;
    let name = compose(field_name, &prefix, &suffix);
    let has_deref = ptr_deref.is_some();
    let ret: ReturnType = match ty {
        Some(t) => ReturnType::Value(t),
        None => ReturnType::Reference {
            marker: RefMarker::RefMut,
            ty: resolve_ptr_ty(field_ty, ptr_deref),
        },
    };
    let m = MethodFragment {
        name,
        field: field_name.clone(),
        vis,
        const_fn,
        must_use: true,
        comments: clone_strings(comments),
        receiver: Receiver::MutRef,
        param: None,
        ret,
        body: MethodBody::Read { marker: Some(RefMarker::RefMut), ptr_deref: has_deref },
        bounds,
    };
    proof {
        assert(m@ =~= spec_synthesize_get_mut(field_name@, field_ty@, opts@, str_views(comments@)));
    }
    m
}

/// Synthesizes the write accessor of one field from its resolved options.
pub fn synthesize_set(
    field_name: &String,
    field_ty: &TypeExpr,
    opts: FinalOptions,
    comments: &Vec<String>,
) -> (m: MethodFragment)
    ensures
        m@ == spec_synthesize_set(field_name@, field_ty@, opts@, str_views(comments@)),
{
    let FinalOptions { owned, const_fn, cp, ptr_deref, vis, prefix, suffix, ty, bounds } = opts;
    let name = compose(field_name, &prefix, &suffix);
    let has_deref = ptr_deref.is_some();
    let param: Option<TypeExpr> = Some(
        match ty {
            Some(t) => t,
            None => resolve_ptr_ty(field_ty, ptr_deref),
        },
    );
    let m = MethodFragment {
        name,
        field: field_name.clone(),
        vis,
        const_fn,
        must_use: false,
        comments: clone_strings(comments),
        receiver: if owned {
            Receiver::MutValue
        } else {
            Receiver::MutRef
        },
        param,
        ret: if cp || owned {
            ReturnType::SelfValue
        } else {
            ReturnType::SelfMutRef
        },
        body: MethodBody::Assign { ptr_deref: has_deref },
        bounds,
    };
    proof {
        assert(m@ =~= spec_synthesize_set(field_name@, field_ty@, opts@, str_views(comments@)));
    }
    m
}

/// The mutable-read accessor ignores `owned` and `cp`: whatever those flags
/// say, the receiver is an exclusive borrow and, absent a full type override,
/// the return is a mutable reference.
pub proof fn lemma_get_mut_ignores_owned_cp(
    field: Seq<char>,
    field_ty: TypeExprView,
    o: FinalOptionsView,
    comments: Seq<Seq<char>>,
)
    ensures
        spec_synthesize_get_mut(field, field_ty, o, comments).receiver == Receiver::MutRef,
        spec_synthesize_get_mut(field, field_ty, o, comments).body == (MethodBody::Read {
            marker: Some(RefMarker::RefMut),
            ptr_deref: o.ptr_deref is Some,
        }),
        o.ty is None ==> spec_synthesize_get_mut(field, field_ty, o, comments).ret
            == (ReturnTypeView::Reference {
            marker: RefMarker::RefMut,
            ty: spec_resolve_ptr_ty(field_ty, o.ptr_deref),
        }),
{
}

/// A raw-pointer field under the `Auto` dereference policy: the read accessor
/// body is an immutable borrow inside the unsafe region, and the write
/// accessor body is a dereferencing assignment inside the unsafe region —
/// independent of how the read accessor resolved.
pub proof fn lemma_pointer_accessor_bodies(
    field: Seq<char>,
    field_ty: TypeExprView,
    get_opts: FinalOptionsView,
    set_opts: FinalOptionsView,
    comments: Seq<Seq<char>>,
)
    requires
        field_ty is RawPtr,
        get_opts.ptr_deref == Some(DerefKind::Auto),
        !get_opts.cp,
        !get_opts.owned,
        set_opts.ptr_deref is Some,
    ensures
        spec_synthesize_get(field, field_ty, get_opts, comments).body == (MethodBody::Read {
            marker: Some(RefMarker::Ref),
            ptr_deref: true,
        }),
        spec_synthesize_set(field, field_ty, set_opts, comments).body == (MethodBody::Assign {
            ptr_deref: true,
        }),
{
}

} // verus!
