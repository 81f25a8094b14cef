//! The record assembler: walks the fields in declaration order and, for each
//! non-skipped field, resolves and synthesizes the three accessor kinds in the
//! fixed order read, mutable read, write. The result is one abstract
//! implementation block: the record's identity, its generics, the
//! container-wide bound set, and the ordered method fragments.

use vstd::prelude::*;

use crate::final_options::{FinalOptions, spec_resolve};
use crate::naming::{AccessorKind, Naming, spec_naming};
use crate::options::{
    ContainerOptions, ContainerOptionsView, VariationOptions, opt_view, str_views,
};
use crate::parsed_field::{ParsedField, ParsedFieldView};
use crate::synthesis::{
    MethodFragment, MethodFragmentView, spec_synthesize_get, spec_synthesize_get_mut,
    spec_synthesize_set, synthesize_get, synthesize_get_mut, synthesize_set,
};

verus! {

/// The parsed record: its fields in declaration order, the container-level
/// configuration, the record's name, and its generics carried verbatim.
#[derive(Debug, PartialEq, Eq)]
pub struct DeriveAccessors {
    pub fields: Vec<ParsedField>,
    pub container_opts: ContainerOptions,
    pub ident: String,
    pub generics: String,
}

/// Mathematical model of [`DeriveAccessors`].
#[verifier::ext_equal]
pub struct DeriveAccessorsView {
    pub fields: Seq<ParsedFieldView>,
    pub container_opts: ContainerOptionsView,
    pub ident: Seq<char>,
    pub generics: Seq<char>,
}

impl View for DeriveAccessors {
    type V = DeriveAccessorsView;

    open spec fn view(&self) -> DeriveAccessorsView {
        DeriveAccessorsView {
            fields: field_views(self.fields@),
            container_opts: self.container_opts@,
            ident: self.ident@,
            generics: self.generics@,
        }
    }
}

/// The assembled output: everything the downstream emitter needs to wrap the
/// ordered method fragments into one implementation construct.
#[derive(Debug, PartialEq, Eq)]
pub struct ImplBlock {
    pub ident: String,
    pub generics: String,
    /// The container-wide bound set, attached once to the whole block,
    /// independent of any per-method bounds.
    pub bounds: Vec<String>,
    pub methods: Vec<MethodFragment>,
}

/// Mathematical model of [`ImplBlock`].
#[verifier::ext_equal]
pub struct ImplBlockView {
    pub ident: Seq<char>,
    pub generics: Seq<char>,
    pub bounds: Seq<Seq<char>>,
    pub methods: Seq<MethodFragmentView>,
}

impl View for ImplBlock {
    type V = ImplBlockView;

    open spec fn view(&self) -> ImplBlockView {
        ImplBlockView {
            ident: self.ident@,
            generics: self.generics@,
            bounds: str_views(self.bounds@),
            methods: fragment_views(self.methods@),
        }
    }
}

/// The views of a sequence of fields.
pub open spec fn field_views(v: Seq<ParsedField>) -> Seq<ParsedFieldView> {
    v.map_values(|f: ParsedField| f@)
}

/// The views of a sequence of method fragments.
pub open spec fn fragment_views(v: Seq<MethodFragment>) -> Seq<MethodFragmentView> {
    v.map_values(|m: MethodFragment| m@)
}

/// The fragments one accessor kind contributes for one field: one fragment
/// when resolution succeeds, none when the accessor is omitted.
pub open spec fn spec_kind_fragments(
    c: ContainerOptionsView,
    f: ParsedFieldView,
    kind: AccessorKind,
) -> Seq<MethodFragmentView> {
    let enable = match kind {
        AccessorKind::Get => c.get,
        AccessorKind::GetMut => c.get_mut,
        AccessorKind::Setter => c.set,
    };
    let ck = match kind {
        AccessorKind::Get => c.defaults.get,
        AccessorKind::GetMut => c.defaults.get_mut,
        AccessorKind::Setter => c.defaults.set,
    };
    let fk = match kind {
        AccessorKind::Get => f.opts.get,
        AccessorKind::GetMut => f.opts.get_mut,
        AccessorKind::Setter => f.opts.set,
    };
    match spec_resolve(enable, ck, spec_naming(kind), fk, f.opts.all, c.defaults.all) {
        Some(fo) => seq![
            match kind {
                AccessorKind::Get => spec_synthesize_get(f.ident, f.ty, fo, f.comments),
                AccessorKind::GetMut => spec_synthesize_get_mut(f.ident, f.ty, fo, f.comments),
                AccessorKind::Setter => spec_synthesize_set(f.ident, f.ty, fo, f.comments),
            },
        ],
        None => seq![],
    }
}

/// The fragments one field contributes: none when the field is skipped, else
/// its three accessor kinds in the fixed order read, mutable read, write.
pub open spec fn spec_field_fragments(
    c: ContainerOptionsView,
    f: ParsedFieldView,
) -> Seq<MethodFragmentView> {
    if f.opts.skip {
        seq![]
    } else {
        spec_kind_fragments(c, f, AccessorKind::Get)
            + spec_kind_fragments(c, f, AccessorKind::GetMut)
            + spec_kind_fragments(c, f, AccessorKind::Setter)
    }
}

/// The concatenated fragments of all fields, in declaration order.
pub open spec fn spec_methods(
    c: ContainerOptionsView,
    fields: Seq<ParsedFieldView>,
) -> Seq<MethodFragmentView>
    decreases fields.len(),
{
    if fields.len() == 0 {
        Seq::empty()
    } else {
        spec_methods(c, fields.drop_last()) + spec_field_fragments(c, fields.last())
    }
}

/// The assembled block: identity and generics carried through, the
/// container-wide bound set attached once, and the fields' fragments in
/// declaration order.
pub open spec fn spec_assemble(d: DeriveAccessorsView) -> ImplBlockView {
    ImplBlockView {
        ident: d.ident,
        generics: d.generics,
        bounds: d.container_opts.bounds,
        methods: spec_methods(d.container_opts, d.fields),
    }
}

/// Clones one optional per-kind option layer, preserving its view.
fn clone_opt_variation(o: &Option<VariationOptions>) -> (r: Option<VariationOptions>)
    ensures
        opt_view(r) == opt_view(*o),
{
    match o {
        Some(v) => Some(v.clone()),
        None => None,
    }
}

/// Resolves and synthesizes the three accessor kinds of one field, appending
/// the resulting fragments in the fixed order.
fn push_field_fragments(
    field: &ParsedField,
    container_opts: &ContainerOptions,
    methods: &mut Vec<MethodFragment>,
)
    ensures
        fragment_views(final(methods)@) == fragment_views(old(methods)@)
            + spec_field_fragments(container_opts@, field@),
{
    if field.opts.skip {
        proof {
            assert(fragment_views(methods@) =~= fragment_views(old(methods)@)
                + spec_field_fragments(container_opts@, field@));
        }
        return;
    }
    let ghost base = fragment_views(methods@);
    let naming_get = Naming::for_kind(AccessorKind::Get);
    match FinalOptions::new(
        container_opts.get,
        &container_opts.defaults.get,
        &naming_get,
        clone_opt_variation(&field.opts.get),
        &field.opts.all,
        &container_opts.defaults.all,
    ) {
        Some(fo) => {
            let m = synthesize_get(&field.ident, &field.ty, fo, &field.comments);
            methods.push(m);
        },
        None => {},
    }
    proof {
        assert(fragment_views(methods@) =~= base
            + spec_kind_fragments(container_opts@, field@, AccessorKind::Get));
    }
    let ghost after_get = fragment_views(methods@);
    let naming_get_mut = Naming::for_kind(AccessorKind::GetMut);
    match FinalOptions::new(
        container_opts.get_mut,
        &container_opts.defaults.get_mut,
        &naming_get_mut,
        clone_opt_variation(&field.opts.get_mut),
        &field.opts.all,
        &container_opts.defaults.all,
    ) {
        Some(fo) => {
            let m = synthesize_get_mut(&field.ident, &field.ty, fo, &field.comments);
            methods.push(m);
        },
        None => {},
    }
    proof {
        assert(fragment_views(methods@) =~= after_get
            + spec_kind_fragments(container_opts@, field@, AccessorKind::GetMut));
    }
    let ghost after_get_mut = fragment_views(methods@);
    let naming_set = Naming::for_kind(AccessorKind::Setter);
    match FinalOptions::new(
        container_opts.set,
        &container_opts.defaults.set,
        &naming_set,
        clone_opt_variation(&field.opts.set),
        &field.opts.all,
        &container_opts.defaults.all,
    ) {
        Some(fo) => {
            let m = synthesize_set(&field.ident, &field.ty, fo, &field.comments);
            methods.push(m);
        },
        None => {},
    }
    proof {
        assert(fragment_views(methods@) =~= after_get_mut
            + spec_kind_fragments(container_opts@, field@, AccessorKind::Setter));
        assert(fragment_views(methods@) =~= fragment_views(old(methods)@)
            + spec_field_fragments(container_opts@, field@));
    }
}

impl DeriveAccessors {
    /// Walks the fields in declaration order and produces the assembled
    /// implementation block; the order of the emitted methods — fields as
    /// declared, and read, mutable read, write within each field — is part of
    /// the contract.
    pub fn assemble(self) -> (out: ImplBlock)
        ensures
            out@ == spec_assemble(self@),
    {
        let DeriveAccessors { fields, container_opts, ident, generics } = self;
        let mut methods: Vec<MethodFragment> = Vec::new();
        let n = fields.len();
        let mut i: usize = 0;
        while i < n
            invariant
                i <= n,
                n == fields.len(),
                fragment_views(methods@) == spec_methods(
                    container_opts@,
                    field_views(fields@).take(i as int),
                ),
            decreases n - i,
        {
            let field = &fields[i];
            push_field_fragments(field, &container_opts, &mut methods);
            proof {
                let fv = field_views(fields@);
                assert(fv.take(i as int + 1).drop_last() =~= fv.take(i as int));
                assert(fv.take(i as int + 1).last() == fv[i as int]);
                assert(fv[i as int] == field@);
            }
            i += 1;
        }
        proof {
            assert(field_views(fields@).take(n as int) =~= field_views(fields@));
        }
        let out = ImplBlock { ident, generics, bounds: container_opts.bounds, methods };
        proof {
            assert(out@ =~= spec_assemble(self@));
        }
        out
    }
}

} // verus!
