//! Behavioral tests of the resolution, naming and synthesis engines, driven
//! through the public API with plain values.

use accessory::derive_accessors::{DeriveAccessors, ImplBlock};
use accessory::final_options::FinalOptions;
use accessory::naming::{AccessorKind, Naming, compose};
use accessory::options::{
    ContainerDefaults, ContainerOptions, DerefKind, FieldOptions, SkippableIdent, TypeExpr,
    VariationDefaults, VariationOptions,
};
use accessory::parsed_field::ParsedField;
use accessory::synthesis::{
    MethodBody, MethodFragment, Receiver, RefMarker, ReturnType, synthesize_get,
    synthesize_get_mut, synthesize_set,
};

fn empty_variation() -> VariationOptions {
    VariationOptions {
        owned: None,
        const_fn: None,
        skip: None,
        cp: None,
        ptr_deref: None,
        ty: None,
        prefix: None,
        suffix: None,
        vis: None,
        bounds: vec![],
    }
}

fn empty_defaults() -> VariationDefaults {
    VariationDefaults {
        owned: None,
        const_fn: None,
        cp: None,
        ptr_deref: None,
        prefix: None,
        suffix: None,
        vis: None,
        bounds: vec![],
    }
}

fn empty_container_defaults() -> ContainerDefaults {
    ContainerDefaults {
        all: empty_defaults(),
        get: empty_defaults(),
        get_mut: empty_defaults(),
        set: empty_defaults(),
    }
}

fn container(get: bool, get_mut: bool, set: bool) -> ContainerOptions {
    ContainerOptions {
        get,
        get_mut,
        set,
        defaults: empty_container_defaults(),
        bounds: vec![],
    }
}

fn no_field_opts() -> FieldOptions {
    FieldOptions { skip: false, all: None, get: None, get_mut: None, set: None }
}

fn resolve_get(
    enable: bool,
    kind_defaults: &VariationDefaults,
    opts: Option<VariationOptions>,
    all_field: &Option<VariationOptions>,
    all_container: &VariationDefaults,
) -> Option<FinalOptions> {
    let naming = Naming::for_kind(AccessorKind::Get);
    FinalOptions::new(enable, kind_defaults, &naming, opts, all_field, all_container)
}

// Precedence monotonicity: for a boolean property, whichever layer sets it
// while every higher-priority layer leaves it unset decides the resolved
// value; with no layer setting it, the resolved value is false. All sixteen
// combinations of which layers set `owned`.
#[test]
fn precedence_owned_all_combinations() {
    for mask in 0u32..16 {
        let fk_sets = mask & 8 != 0;
        let fa_sets = mask & 4 != 0;
        let ck_sets = mask & 2 != 0;
        let ca_sets = mask & 1 != 0;
        // Each layer that sets the property sets a distinctive value.
        let mut fk = empty_variation();
        if fk_sets {
            fk.owned = Some(true);
        }
        let fa = if fa_sets {
            let mut a = empty_variation();
            a.owned = Some(false);
            Some(a)
        } else {
            None
        };
        let mut ck = empty_defaults();
        if ck_sets {
            ck.owned = Some(true);
        }
        let mut ca = empty_defaults();
        if ca_sets {
            ca.owned = Some(false);
        }
        let expected = if fk_sets {
            true
        } else if fa_sets {
            false
        } else if ck_sets {
            true
        } else {
            false // set by ca as false, or unset anywhere and defaulted to false
        };
        let resolved = resolve_get(true, &ck, Some(fk), &fa, &ca)
            .expect("a non-skipping field layer always resolves");
        assert_eq!(resolved.owned, expected, "layer mask {mask}");
    }
}

// Skip short-circuit: a field-accessor skip=true yields omission even when
// the container enables the kind by default and the field sets conflicting
// options.
#[test]
fn skip_short_circuits_before_any_merge() {
    let mut fk = empty_variation();
    fk.skip = Some(true);
    fk.owned = Some(true);
    fk.cp = Some(true);
    fk.prefix = Some(SkippableIdent::Ident(String::from("read")));
    let mut all = empty_variation();
    all.const_fn = Some(true);
    let r = resolve_get(true, &empty_defaults(), Some(fk), &Some(all), &empty_defaults());
    assert!(r.is_none());
}

// An explicit skip=false is a set slot, not an unset one: it does not omit.
#[test]
fn explicit_skip_false_resolves() {
    let mut fk = empty_variation();
    fk.skip = Some(false);
    let r = resolve_get(false, &empty_defaults(), Some(fk), &None, &empty_defaults());
    assert!(r.is_some());
}

// A kind that is not enabled by default and has no field-level options at all
// is omitted.
#[test]
fn disabled_kind_without_field_options_is_omitted() {
    let r = resolve_get(false, &empty_defaults(), None, &None, &empty_defaults());
    assert!(r.is_none());
}

// A field catch-all with skip=true omits the kinds that only arise from it.
#[test]
fn catch_all_skip_omits_default_enabled_kind() {
    let mut all = empty_variation();
    all.skip = Some(true);
    let r = resolve_get(true, &empty_defaults(), None, &Some(all), &empty_defaults());
    assert!(r.is_none());
}

// The explicit type override never participates in default-layer fallback: a
// catch-all `ty` does not leak into a present per-kind layer.
#[test]
fn type_not_inherited_by_present_kind_layer() {
    let fk = empty_variation();
    let mut all = empty_variation();
    all.ty = Some(TypeExpr::Plain(String::from("&str")));
    let r = resolve_get(true, &empty_defaults(), Some(fk), &Some(all), &empty_defaults())
        .expect("resolves");
    assert_eq!(r.ty, None);
}

// When the per-kind layer is absent, the working record is seeded from the
// catch-all, so its `ty` does carry over.
#[test]
fn type_carries_from_catch_all_seed() {
    let mut all = empty_variation();
    all.ty = Some(TypeExpr::Plain(String::from("&str")));
    let r = resolve_get(true, &empty_defaults(), None, &Some(all), &empty_defaults())
        .expect("resolves");
    assert_eq!(r.ty, Some(TypeExpr::Plain(String::from("&str"))));
}

// Unset visibility materializes as public.
#[test]
fn unset_visibility_defaults_to_public() {
    let r = resolve_get(true, &empty_defaults(), Some(empty_variation()), &None, &empty_defaults())
        .expect("resolves");
    assert_eq!(r.vis, String::from("pub"));
}

// A set visibility wins over the default.
#[test]
fn set_visibility_is_kept() {
    let mut ca = empty_defaults();
    ca.vis = Some(String::from("pub(crate)"));
    let r = resolve_get(true, &empty_defaults(), Some(empty_variation()), &None, &ca)
        .expect("resolves");
    assert_eq!(r.vis, String::from("pub(crate)"));
}

// Naming composition: the four presence combinations give exactly the four
// documented shapes.
#[test]
fn compose_four_shapes() {
    let field = String::from("good");
    let p = Some(SkippableIdent::Ident(String::from("get")));
    let s = Some(SkippableIdent::Ident(String::from("now")));
    assert_eq!(compose(&field, &p, &s), String::from("get_good_now"));
    assert_eq!(compose(&field, &p, &None), String::from("get_good"));
    assert_eq!(compose(&field, &None, &s), String::from("good_now"));
    assert_eq!(compose(&field, &None, &None), String::from("good"));
}

// A cleared slot behaves as an absent one in composition.
#[test]
fn compose_cleared_behaves_as_absent() {
    let field = String::from("good");
    let s = Some(SkippableIdent::Ident(String::from("now")));
    assert_eq!(compose(&field, &Some(SkippableIdent::Skip), &Some(SkippableIdent::Skip)),
        String::from("good"));
    assert_eq!(compose(&field, &Some(SkippableIdent::Skip), &s), String::from("good_now"));
}

// Clearing an inherited suffix suppresses the naming convention: a mutable
// getter whose suffix is explicitly cleared keeps the bare field name, even
// though the convention would add `mut` and a container default would add its
// own suffix.
#[test]
fn cleared_suffix_suppresses_convention_and_defaults() {
    let mut fk = empty_variation();
    fk.suffix = Some(SkippableIdent::Skip);
    let mut ck = empty_defaults();
    ck.suffix = Some(SkippableIdent::Ident(String::from("mutable")));
    let naming = Naming::for_kind(AccessorKind::GetMut);
    let r = FinalOptions::new(true, &ck, &naming, Some(fk), &None, &empty_defaults())
        .expect("resolves");
    assert_eq!(r.suffix, Some(SkippableIdent::Skip));
    let name = compose(&String::from("good"), &r.prefix, &r.suffix);
    assert_eq!(name, String::from("good"));
}

// The conventions themselves: an untouched mutable getter gets the `mut`
// suffix, an untouched setter the `set` prefix, a getter neither.
#[test]
fn naming_conventions_fill_untouched_slots() {
    let get_naming = Naming::for_kind(AccessorKind::Get);
    let get_mut_naming = Naming::for_kind(AccessorKind::GetMut);
    let set_naming = Naming::for_kind(AccessorKind::Setter);
    let field = String::from("x");

    let g = FinalOptions::new(true, &empty_defaults(), &get_naming, None, &None,
        &empty_defaults()).expect("resolves");
    assert_eq!(compose(&field, &g.prefix, &g.suffix), String::from("x"));

    let m = FinalOptions::new(true, &empty_defaults(), &get_mut_naming, None, &None,
        &empty_defaults()).expect("resolves");
    assert_eq!(compose(&field, &m.prefix, &m.suffix), String::from("x_mut"));

    let s = FinalOptions::new(true, &empty_defaults(), &set_naming, None, &None,
        &empty_defaults()).expect("resolves");
    assert_eq!(compose(&field, &s.prefix, &s.suffix), String::from("set_x"));
}

// An explicitly set prefix wins over the convention.
#[test]
fn explicit_prefix_wins_over_convention() {
    let mut fk = empty_variation();
    fk.prefix = Some(SkippableIdent::Ident(String::from("with")));
    let naming = Naming::for_kind(AccessorKind::Setter);
    let r = FinalOptions::new(true, &empty_defaults(), &naming, Some(fk), &None,
        &empty_defaults()).expect("resolves");
    assert_eq!(compose(&String::from("x"), &r.prefix, &r.suffix), String::from("with_x"));
}

fn resolved(owned: bool, const_fn: bool, cp: bool, ptr_deref: Option<DerefKind>) -> FinalOptions {
    FinalOptions {
        owned,
        const_fn,
        cp,
        ptr_deref,
        vis: String::from("pub"),
        prefix: None,
        suffix: None,
        ty: None,
        bounds: vec![],
    }
}

// GetMut ignores owned and cp: the receiver stays an exclusive borrow and the
// return a mutable reference.
#[test]
fn get_mut_ignores_owned_and_cp() {
    let opts = resolved(true, false, true, None);
    let m = synthesize_get_mut(&String::from("x"), &TypeExpr::Plain(String::from("i32")), opts,
        &vec![]);
    assert_eq!(m.receiver, Receiver::MutRef);
    assert_eq!(m.ret, ReturnType::Reference {
        marker: RefMarker::RefMut,
        ty: TypeExpr::Plain(String::from("i32")),
    });
    assert_eq!(m.body, MethodBody::Read { marker: Some(RefMarker::RefMut), ptr_deref: false });
}

// Round trip scenario: a field `x: i32` with no per-field options, container
// defaults `get` and `set` enabled with `all.cp = true`, resolves the read
// accessor to return by value and the write accessor to take by value and
// return the receiver by value.
#[test]
fn round_trip_scenario_resolution() {
    let mut c = container(true, false, true);
    c.defaults.all.cp = Some(true);
    let field = ParsedField {
        comments: vec![],
        opts: no_field_opts(),
        ident: String::from("x"),
        ty: TypeExpr::Plain(String::from("i32")),
    };
    let input = DeriveAccessors {
        fields: vec![field],
        container_opts: c,
        ident: String::from("Sample"),
        generics: String::from(""),
    };
    let out: ImplBlock = accessory::derive_accessors(input);
    assert_eq!(out.methods.len(), 2);

    let get = &out.methods[0];
    assert_eq!(get.name, String::from("x"));
    assert_eq!(get.field, String::from("x"));
    assert_eq!(get.receiver, Receiver::Ref);
    assert_eq!(get.ret, ReturnType::Value(TypeExpr::Plain(String::from("i32"))));
    assert_eq!(get.body, MethodBody::Read { marker: None, ptr_deref: false });

    let set = &out.methods[1];
    assert_eq!(set.name, String::from("set_x"));
    assert_eq!(set.param, Some(TypeExpr::Plain(String::from("i32"))));
    assert_eq!(set.ret, ReturnType::SelfValue);
    assert_eq!(set.body, MethodBody::Assign { ptr_deref: false });
}

// The behavioral half of the round trip: a sample record honouring the
// resolved shapes (get returns by value, set assigns and hands the record
// back) yields the newly set value on get-set-get.
struct Sample {
    x: i32,
}

impl Sample {
    fn x(&self) -> i32 {
        self.x
    }

    fn set_x(mut self, new_value: i32) -> Sample {
        self.x = new_value;
        self
    }
}

#[test]
fn round_trip_scenario_behaviour() {
    let sample = Sample { x: 1 };
    assert_eq!(sample.x(), 1);
    let sample = sample.set_x(42);
    assert_eq!(sample.x(), 42);
}

// Pointer scenario: a raw-pointer field with ptr_deref=Auto yields, for the
// read accessor, an immutable borrow inside the unsafe region, and for the
// write accessor a dereferencing assignment inside the unsafe region,
// independent of the read resolution.
#[test]
fn pointer_auto_deref_bodies() {
    let ty = TypeExpr::RawPtr { mutable: true, pointee: String::from("String") };
    let g = synthesize_get(&String::from("direct"), &ty,
        resolved(false, false, false, Some(DerefKind::Auto)), &vec![]);
    assert_eq!(g.body, MethodBody::Read { marker: Some(RefMarker::Ref), ptr_deref: true });
    assert_eq!(g.ret, ReturnType::Reference {
        marker: RefMarker::Ref,
        ty: TypeExpr::Plain(String::from("String")),
    });

    let s = synthesize_set(&String::from("direct"), &ty,
        resolved(false, false, false, Some(DerefKind::Auto)), &vec![]);
    assert_eq!(s.body, MethodBody::Assign { ptr_deref: true });
    assert_eq!(s.param, Some(TypeExpr::Plain(String::from("String"))));
    assert_eq!(s.ret, ReturnType::SelfMutRef);
}

// Forcing a mutable dereference inside a read accessor is permitted and
// yields a mutable reference from an immutable receiver.
#[test]
fn forced_mutable_deref_in_getter() {
    let ty = TypeExpr::RawPtr { mutable: true, pointee: String::from("Inner") };
    let g = synthesize_get(&String::from("force_mutable"), &ty,
        resolved(false, false, false, Some(DerefKind::DerefMut)), &vec![]);
    assert_eq!(g.receiver, Receiver::Ref);
    assert_eq!(g.body, MethodBody::Read { marker: Some(RefMarker::RefMut), ptr_deref: true });
    assert_eq!(g.ret, ReturnType::Reference {
        marker: RefMarker::RefMut,
        ty: TypeExpr::Plain(String::from("Inner")),
    });
}

// An explicit type override replaces the return type verbatim but leaves the
// dereferencing body untouched.
#[test]
fn explicit_type_overrides_return_not_body() {
    let ty = TypeExpr::RawPtr { mutable: true, pointee: String::from("String") };
    let mut opts = resolved(false, false, false, Some(DerefKind::Auto));
    opts.ty = Some(TypeExpr::Plain(String::from("&str")));
    let g = synthesize_get(&String::from("retyped"), &ty, opts, &vec![]);
    assert_eq!(g.ret, ReturnType::Value(TypeExpr::Plain(String::from("&str"))));
    assert_eq!(g.body, MethodBody::Read { marker: Some(RefMarker::Ref), ptr_deref: true });
}

// A copy-flagged pointer read returns by value and still dereferences.
#[test]
fn copy_pointer_getter_returns_by_value() {
    let ty = TypeExpr::RawPtr { mutable: true, pointee: String::from("usize") };
    let g = synthesize_get(&String::from("copy_field"), &ty,
        resolved(false, false, true, Some(DerefKind::Auto)), &vec![]);
    assert_eq!(g.ret, ReturnType::Value(TypeExpr::Plain(String::from("usize"))));
    assert_eq!(g.body, MethodBody::Read { marker: None, ptr_deref: true });
}

// The dereference policy's explicit borrow markers.
#[test]
fn deref_kind_markers() {
    assert_eq!(DerefKind::Auto.try_into_tokens(), None);
    assert_eq!(DerefKind::Deref.try_into_tokens(), Some(RefMarker::Ref));
    assert_eq!(DerefKind::DerefMut.try_into_tokens(), Some(RefMarker::RefMut));
}

// Bound replacement, not union: a field-level empty bound set under a
// container-per-kind default with three predicates resolves to those three
// verbatim.
#[test]
fn bounds_replaced_wholesale() {
    let fk = empty_variation();
    let mut ck = empty_defaults();
    ck.bounds = vec![
        String::from("T: Clone"),
        String::from("U: Default"),
        String::from("V: Copy"),
    ];
    let r = resolve_get(true, &ck, Some(fk), &None, &empty_defaults()).expect("resolves");
    assert_eq!(r.bounds, vec![
        String::from("T: Clone"),
        String::from("U: Default"),
        String::from("V: Copy"),
    ]);
}

// A non-empty field-level bound set shadows every lower layer wholesale.
#[test]
fn nonempty_bounds_shadow_lower_layers() {
    let mut fk = empty_variation();
    fk.bounds = vec![String::from("T: Copy")];
    let mut ck = empty_defaults();
    ck.bounds = vec![String::from("T: Clone"), String::from("U: Default")];
    let r = resolve_get(true, &ck, Some(fk), &None, &empty_defaults()).expect("resolves");
    assert_eq!(r.bounds, vec![String::from("T: Copy")]);
}

// A `false` set at a higher layer is a set slot: it is not overwritten by a
// `true` below (unset and explicitly-false are distinct states).
#[test]
fn explicit_false_is_not_fillable() {
    let mut fk = empty_variation();
    fk.const_fn = Some(false);
    let mut ca = empty_defaults();
    ca.const_fn = Some(true);
    let r = resolve_get(true, &empty_defaults(), Some(fk), &None, &ca).expect("resolves");
    assert!(!r.const_fn);
}

// The assembler: fields in declaration order, and read, mutable read, write
// within each field; skipped fields and skipped kinds contribute nothing; the
// container-wide bound set rides along once.
#[test]
fn assemble_orders_and_skips() {
    let mut get_mut_skip = empty_variation();
    get_mut_skip.skip = Some(true);
    let fields = vec![
        ParsedField {
            comments: vec![String::from("doc of x")],
            opts: no_field_opts(),
            ident: String::from("x"),
            ty: TypeExpr::Plain(String::from("i8")),
        },
        ParsedField {
            comments: vec![],
            opts: FieldOptions { skip: true, all: None, get: None, get_mut: None, set: None },
            ident: String::from("w"),
            ty: TypeExpr::Plain(String::from("i8")),
        },
        ParsedField {
            comments: vec![],
            opts: FieldOptions {
                skip: false,
                all: None,
                get: None,
                get_mut: Some(get_mut_skip),
                set: None,
            },
            ident: String::from("z"),
            ty: TypeExpr::Plain(String::from("i8")),
        },
    ];
    let mut c = container(true, true, true);
    c.bounds = vec![String::from("W: PartialEq")];
    let input = DeriveAccessors {
        fields,
        container_opts: c,
        ident: String::from("Sample"),
        generics: String::from("<W>"),
    };
    let out = accessory::derive_accessors(input);
    assert_eq!(out.ident, String::from("Sample"));
    assert_eq!(out.generics, String::from("<W>"));
    assert_eq!(out.bounds, vec![String::from("W: PartialEq")]);
    let names: Vec<String> = out.methods.iter().map(|m| m.name.clone()).collect();
    assert_eq!(names, vec![
        String::from("x"),
        String::from("x_mut"),
        String::from("set_x"),
        String::from("z"),
        String::from("set_z"),
    ]);
    assert_eq!(out.methods[0].comments, vec![String::from("doc of x")]);
    assert!(out.methods[0].must_use);
    assert!(out.methods[1].must_use);
    assert!(!out.methods[2].must_use);
}

// Per-method bounds land on the fragment, independent of the container-wide
// set.
#[test]
fn per_method_bounds_on_fragment() {
    let mut get_opts = empty_variation();
    get_opts.cp = Some(true);
    get_opts.bounds = vec![String::from("World: Copy")];
    let fields = vec![ParsedField {
        comments: vec![],
        opts: FieldOptions {
            skip: false,
            all: None,
            get: Some(get_opts),
            get_mut: None,
            set: None,
        },
        ident: String::from("world"),
        ty: TypeExpr::Plain(String::from("World")),
    }];
    let mut c = container(false, false, false);
    c.bounds = vec![String::from("World: PartialEq")];
    let input = DeriveAccessors {
        fields,
        container_opts: c,
        ident: String::from("Hello"),
        generics: String::from("<World>"),
    };
    let out = accessory::derive_accessors(input);
    assert_eq!(out.methods.len(), 1);
    let m: &MethodFragment = &out.methods[0];
    assert_eq!(m.bounds, vec![String::from("World: Copy")]);
    assert_eq!(m.ret, ReturnType::Value(TypeExpr::Plain(String::from("World"))));
    assert_eq!(out.bounds, vec![String::from("World: PartialEq")]);
}

// The const flag survives resolution into the fragment.
#[test]
fn const_fn_flag_reaches_fragment() {
    let mut ca = empty_defaults();
    ca.const_fn = Some(true);
    let naming = Naming::for_kind(AccessorKind::Get);
    let r = FinalOptions::new(true, &empty_defaults(), &naming, None, &None, &ca)
        .expect("resolves");
    let m = synthesize_get(&String::from("y"), &TypeExpr::Plain(String::from("i8")), r, &vec![]);
    assert!(m.const_fn);
}

// An owned getter takes the receiver by value.
#[test]
fn owned_getter_takes_receiver_by_value() {
    let g = synthesize_get(&String::from("x"), &TypeExpr::Plain(String::from("i8")),
        resolved(true, false, false, None), &vec![]);
    assert_eq!(g.receiver, Receiver::Value);
    assert_eq!(g.ret, ReturnType::Value(TypeExpr::Plain(String::from("i8"))));
}

// An owned setter takes a mutable by-value receiver and returns it by value.
#[test]
fn owned_setter_chains_by_value() {
    let s = synthesize_set(&String::from("x"), &TypeExpr::Plain(String::from("i8")),
        resolved(true, false, false, None), &vec![]);
    assert_eq!(s.receiver, Receiver::MutValue);
    assert_eq!(s.ret, ReturnType::SelfValue);
}

// The naming defaults application on an already-materialized record.
#[test]
fn apply_naming_defaults_fills_only_unset() {
    let mut r = resolved(false, false, false, None);
    r.prefix = Some(SkippableIdent::Skip);
    let naming = Naming::for_kind(AccessorKind::Setter);
    r.apply_naming_defaults(&naming);
    // The cleared prefix is kept; the unset suffix stays unset because the
    // setter convention has none.
    assert_eq!(r.prefix, Some(SkippableIdent::Skip));
    assert_eq!(r.suffix, None);
}

// A kind enabled by default with no field-level options inherits the
// container defaults, nearest layer first: the per-kind default wins over
// the catch-all, and the catch-all fills what the per-kind layer leaves
// unset.
#[test]
fn default_enabled_kind_inherits_container_defaults() {
    let mut ck = empty_defaults();
    ck.owned = Some(true);
    let mut ca = empty_defaults();
    ca.owned = Some(false);
    ca.const_fn = Some(true);
    let r = resolve_get(true, &ck, None, &None, &ca).expect("resolves");
    assert!(r.owned);
    assert!(r.const_fn);
}
