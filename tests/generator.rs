use reborrow::generator::{
    decimal_text, find_marker, impl_generics, narrowing_impl_generics, reborrow_exprs, same_text,
    ty_generics, AttrDecl, DataDecl, DeriveDecl, DeriveError, FieldDecl, FieldsDecl, ParamDecl,
};
use reborrow::{AsPseudoMut, derive_reborrow, derive_reborrow_copy, derive_reborrow_with_const, unzip3};

const RL: &str = "'__reborrow_lifetime";

fn attr(head: &str, tokens: &str) -> AttrDecl {
    AttrDecl { head: head.to_string(), head_has_args: false, tokens: tokens.to_string() }
}

fn lifetime(name: &str) -> ParamDecl {
    ParamDecl::Lifetime { name: name.to_string(), bounds: String::new() }
}

fn field(name: Option<&str>, ty: &str, recurse: bool) -> FieldDecl {
    FieldDecl {
        attrs: if recurse { vec![attr("reborrow", "")] } else { vec![] },
        ident: name.map(|n| n.to_string()),
        ty: ty.to_string(),
    }
}

fn decl(attrs: Vec<AttrDecl>, name: &str, data: DataDecl) -> DeriveDecl {
    DeriveDecl {
        attrs,
        ident: name.to_string(),
        params: vec![lifetime("'a"), lifetime("'b")],
        where_clause: String::new(),
        data,
    }
}

fn named_mut_decl() -> DeriveDecl {
    decl(
        vec![attr("Const", "(shared::I32Ref)")],
        "I32RefMut",
        DataDecl::Struct(FieldsDecl::Named(vec![
            field(Some("i"), "i32", false),
            field(Some("j"), "&'a mut i32", true),
            field(Some("k"), "&'b mut i32", true),
        ])),
    )
}

#[test]
fn unzip3_keeps_order() {
    let (a, b, c) = unzip3(vec![(1, 'a', "x"), (2, 'b', "y"), (3, 'c', "z")]);
    assert_eq!(a, vec![1, 2, 3]);
    assert_eq!(b, vec!['a', 'b', 'c']);
    assert_eq!(c, vec!["x", "y", "z"]);
    let (d, e, f) = unzip3(Vec::<(u8, u8, u8)>::new());
    assert!(d.is_empty() && e.is_empty() && f.is_empty());
}

#[test]
fn decimal_and_text_helpers() {
    assert_eq!(decimal_text(0), "0");
    assert_eq!(decimal_text(7), "7");
    assert_eq!(decimal_text(120), "120");
    assert!(same_text("Const", "Const"));
    assert!(!same_text("Const", "Cons"));
    assert!(!same_text("Const", "const"));
}

#[test]
fn markers_are_found_first_and_bare() {
    let mut with_args = attr("Const", "(X)");
    with_args.head_has_args = true;
    let attrs = vec![attr("doc", ""), with_args, attr("Const", "(A)"), attr("Const", "(B)")];
    assert_eq!(find_marker(&attrs, "Const"), Some(2));
    assert_eq!(find_marker(&attrs, "reborrow"), None);
}

#[test]
fn field_policies() {
    let direct = field(Some("i"), "i32", false);
    let (m, r, c) = reborrow_exprs(0, &direct);
    assert_eq!((m.as_str(), r.as_str(), c.as_str()), ("self.i", "self.i", "self.i"));
    let rec = field(None, "&'a mut i32", true);
    let (m, r, c) = reborrow_exprs(12, &rec);
    assert_eq!(m, "<&'a mut i32 as ::reborrow::ReborrowMut>::rb_mut(&mut self.12)");
    assert_eq!(r, "<&'a mut i32 as ::reborrow::Reborrow>::rb(&self.12)");
    assert_eq!(c, "<&'a mut i32 as ::reborrow::IntoConst>::into_const(self.12)");
}

#[test]
fn generics_rendering() {
    let params = vec![
        lifetime("'a"),
        ParamDecl::Lifetime { name: "'b".to_string(), bounds: "'a".to_string() },
        ParamDecl::Type { name: "T".to_string(), bounds: "Clone".to_string() },
        ParamDecl::Const { name: "N".to_string(), ty: "usize".to_string() },
    ];
    assert_eq!(impl_generics(&params), "<'a, 'b: 'a, T: Clone, const N: usize, >");
    assert_eq!(
        narrowing_impl_generics(&params),
        format!("<{RL}, 'a, 'b: 'a, T: Clone, const N: usize, >")
    );
    assert_eq!(ty_generics(&params, false), "<'a, 'b, T, N, >");
    assert_eq!(ty_generics(&params, true), format!("<{RL}, {RL}, T, N, >"));
    assert_eq!(impl_generics(&vec![]), "");
    assert_eq!(narrowing_impl_generics(&vec![]), format!("<{RL}, >"));
}

#[test]
fn named_record_impls() {
    let out = derive_reborrow(&named_mut_decl()).unwrap();
    let into_const = format!(
        "impl<'a, 'b, > ::reborrow::IntoConst for I32RefMut<'a, 'b, >  {{\n    type Target = shared :: I32Ref<'a, 'b, >;\n    #[inline]\n    fn into_const(self) -> <Self as ::reborrow::IntoConst>::Target {{\n        shared :: I32Ref::<'a, 'b, > {{ i: self.i, j: <&'a mut i32 as ::reborrow::IntoConst>::into_const(self.j), k: <&'b mut i32 as ::reborrow::IntoConst>::into_const(self.k), }}\n    }}\n}}\n"
    );
    assert!(out.starts_with(&into_const), "{out}");
    assert!(out.contains(&format!(
        "impl<{RL}, 'a, 'b, > ::reborrow::ReborrowMut<{RL}> for I32RefMut<'a, 'b, >  {{\n    type Target = I32RefMut<{RL}, {RL}, >;\n"
    )));
    assert!(out.contains(&format!(
        "I32RefMut::<{RL}, {RL}, > {{ i: self.i, j: <&'a mut i32 as ::reborrow::ReborrowMut>::rb_mut(&mut self.j), k: <&'b mut i32 as ::reborrow::ReborrowMut>::rb_mut(&mut self.k), }}"
    )));
    assert!(out.contains(&format!(
        "shared :: I32Ref::<{RL}, {RL}, > {{ i: self.i, j: <&'a mut i32 as ::reborrow::Reborrow>::rb(&self.j), k: <&'b mut i32 as ::reborrow::Reborrow>::rb(&self.k), }}"
    )));
    assert!(out.contains(&format!("::reborrow::AsPseudoMut<{RL}, I32RefMut<{RL}, {RL}, >>")));
    assert!(out.contains(&format!("::reborrow::AsPseudoRef<{RL}, shared :: I32Ref<{RL}, {RL}, >>")));
    assert!(out.contains("<Self as ::reborrow::ReborrowMut>::rb_mut(self)"));
    assert!(out.contains("<Self as ::reborrow::Reborrow>::rb(self)"));
    assert_eq!(out.matches("impl<").count(), 5);
}

#[test]
fn tuple_record_impls() {
    let d = decl(
        vec![attr("Const", "(shared::I32TupleRef)")],
        "I32TupleRefMut",
        DataDecl::Struct(FieldsDecl::Unnamed(vec![
            field(None, "i32", false),
            field(None, "&'a mut i32", true),
            field(None, "&'b mut i32", true),
        ])),
    );
    let out = derive_reborrow(&d).unwrap();
    assert!(out.contains(&format!(
        "I32TupleRefMut::<{RL}, {RL}, >(self.0, <&'a mut i32 as ::reborrow::ReborrowMut>::rb_mut(&mut self.1), <&'b mut i32 as ::reborrow::ReborrowMut>::rb_mut(&mut self.2), )"
    )));
    assert!(out.contains(
        "shared :: I32TupleRef::<'a, 'b, >(self.0, <&'a mut i32 as ::reborrow::IntoConst>::into_const(self.1), <&'b mut i32 as ::reborrow::IntoConst>::into_const(self.2), )"
    ));
}

#[test]
fn unit_record_impls() {
    let d = DeriveDecl {
        attrs: vec![attr("Const", "(UnitRef)")],
        ident: "UnitMut".to_string(),
        params: vec![],
        where_clause: String::new(),
        data: DataDecl::Struct(FieldsDecl::Unit),
    };
    let out = derive_reborrow(&d).unwrap();
    assert!(out.starts_with("impl ::reborrow::IntoConst for UnitMut  {\n    type Target = UnitRef;\n"));
    assert!(out.contains("::Target {\n        UnitRef\n    }"));
    assert!(out.contains("::Target {\n        UnitMut\n    }"));
}

#[test]
fn counterpart_required() {
    let mut d = named_mut_decl();
    d.attrs = vec![attr("doc", "")];
    assert_eq!(derive_reborrow(&d), Err(DeriveError::MissingConst));
    d.attrs[0].head = "Const".to_string();
    d.attrs[0].head_has_args = true;
    assert_eq!(derive_reborrow(&d), Err(DeriveError::MissingConst));
}

#[test]
fn counterpart_must_be_parenthesised_type() {
    let mut d = named_mut_decl();
    d.attrs = vec![attr("Const", "= shared::I32Ref")];
    assert_eq!(derive_reborrow(&d), Err(DeriveError::BadConst));
}

#[test]
fn only_structs_are_supported() {
    let mut d = named_mut_decl();
    d.data = DataDecl::Enum;
    assert_eq!(derive_reborrow(&d), Err(DeriveError::Enum));
    d.data = DataDecl::Union;
    assert_eq!(derive_reborrow(&d), Err(DeriveError::Union));
}

#[test]
fn copy_record_impls() {
    let d = decl(
        vec![],
        "I32Ref",
        DataDecl::Struct(FieldsDecl::Named(vec![
            field(Some("i"), "i32", false),
            field(Some("j"), "&'a i32", false),
            field(Some("k"), "&'b i32", false),
        ])),
    );
    let out = derive_reborrow_copy(&d);
    assert!(out.starts_with(
        "impl<'a, 'b, > ::core::marker::Copy for I32Ref<'a, 'b, >  {\n}\nimpl<'a, 'b, > ::core::clone::Clone for I32Ref<'a, 'b, >  {\n    #[inline]\n    fn clone(&self) -> Self {\n        *self\n    }\n}\n"
    ));
    assert!(out.contains("type Target = I32Ref<'a, 'b, >;\n    #[inline]\n    fn into_const(self) -> <Self as ::reborrow::IntoConst>::Target {\n        self\n    }"));
    assert!(out.contains(&format!("type Target = I32Ref<{RL}, {RL}, >;")));
    assert_eq!(out.matches("*self").count(), 5);
    assert_eq!(out.matches("impl<").count(), 7);
}

#[test]
fn with_const_uses_the_given_counterpart() {
    let mut d = named_mut_decl();
    d.attrs = vec![];
    let out = derive_reborrow_with_const(&d, "Counterpart").unwrap();
    assert!(out.contains("type Target = Counterpart<'a, 'b, >;"));
    assert!(out.contains(&format!("type Target = Counterpart<{RL}, {RL}, >;")));
    d.data = DataDecl::Enum;
    assert_eq!(derive_reborrow_with_const(&d, "Counterpart"), Err(DeriveError::Enum));
    d.data = DataDecl::Union;
    assert_eq!(derive_reborrow_with_const(&d, "Counterpart"), Err(DeriveError::Union));
}

#[test]
fn string_adapter_writes_through() {
    let mut s = String::from("abc");
    {
        let m: &mut str = s.as_pseudo_mut();
        m.make_ascii_uppercase();
    }
    assert_eq!(s, "ABC");
}
