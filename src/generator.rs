//! The generator of view operations. It reads a plain description of a type declaration
//! (attributes, generic parameters, fields with their markers) and writes the source of
//! the impls: fields marked `reborrow` are narrowed by recursion, the others are moved or
//! copied through, and every lifetime parameter is replaced by one fresh, shorter lifetime.
use vstd::prelude::*;
use vstd::string::{StrSliceExecFns, StringExecFns};

verus! {

/// An attribute as the generator reads it: the first segment of its path, whether that
/// segment carries generic arguments, and the tokens that follow the path.
pub struct AttrDecl {
    pub head: String,
    pub head_has_args: bool,
    pub tokens: String,
}

/// A generic parameter of a record declaration; bounds are kept as source text,
/// empty when there are none.
pub enum ParamDecl {
    Lifetime { name: String, bounds: String },
    Type { name: String, bounds: String },
    Const { name: String, ty: String },
}

/// A field: its attributes, its name (absent in a positional record) and its type as source text.
pub struct FieldDecl {
    pub attrs: Vec<AttrDecl>,
    pub ident: Option<String>,
    pub ty: String,
}

/// The fields of a record, uniformly named, uniformly positional, or none at all.
pub enum FieldsDecl {
    Named(Vec<FieldDecl>),
    Unnamed(Vec<FieldDecl>),
    Unit,
}

/// The shape of a declaration.
pub enum DataDecl {
    Struct(FieldsDecl),
    Enum,
    Union,
}

/// A type declaration handed to the generator.
pub struct DeriveDecl {
    pub attrs: Vec<AttrDecl>,
    pub ident: String,
    pub params: Vec<ParamDecl>,
    pub where_clause: String,
    pub data: DataDecl,
}

/// Why a declaration cannot be given the view operations.
#[derive(PartialEq, Eq, Structural, Debug, Clone, Copy)]
pub enum DeriveError {
    /// No `Const` attribute names the immutable counterpart.
    MissingConst,
    /// The `Const` attribute does not hold a parenthesised type.
    BadConst,
    /// The declaration is an enum.
    Enum,
    /// The declaration is a union.
    Union,
}

/// Splits a sequence of triples into three sequences, keeping the order.
pub fn unzip3<A, B, C>(items: Vec<(A, B, C)>) -> (r: (Vec<A>, Vec<B>, Vec<C>))
    ensures
        r.0@.len() == items@.len(),
        r.1@.len() == items@.len(),
        r.2@.len() == items@.len(),
        forall|i: int|
            0 <= i < items@.len() ==> r.0@[i] == items@[i].0 && r.1@[i] == items@[i].1 && r.2@[i]
                == items@[i].2,
{
    let mut rest = items;
    let ghost all = rest@;
    let mut v0: Vec<A> = Vec::new();
    let mut v1: Vec<B> = Vec::new();
    let mut v2: Vec<C> = Vec::new();
    while rest.len() > 0
        invariant
            v0@.len() == v1@.len() == v2@.len(),
            v0@.len() + rest@.len() == all.len(),
            rest@ == all.subrange(v0@.len() as int, all.len() as int),
            forall|i: int|
                0 <= i < v0@.len() ==> v0@[i] == all[i].0 && v1@[i] == all[i].1 && v2@[i]
                    == all[i].2,
        decreases rest@.len(),
    {
        let (a, b, c) = rest.remove(0);
        v0.push(a);
        v1.push(b);
        v2.push(c);
    }
    (v0, v1, v2)
}

/// The decimal digits of `n`.
pub open spec fn decimal(n: nat) -> Seq<char>
    decreases n,
{
    if n < 10 {
        seq![digit_char(n)]
    } else {
        decimal(n / 10) + seq![digit_char(n % 10)]
    }
}

/// The character of the decimal digit `d`.
pub open spec fn digit_char(d: nat) -> char {
    if d == 0 {
        '0'
    } else if d == 1 {
        '1'
    } else if d == 2 {
        '2'
    } else if d == 3 {
        '3'
    } else if d == 4 {
        '4'
    } else if d == 5 {
        '5'
    } else if d == 6 {
        '6'
    } else if d == 7 {
        '7'
    } else if d == 8 {
        '8'
    } else {
        '9'
    }
}

/// The decimal digit `d` as text.
fn digit(d: usize) -> (r: &'static str)
    requires
        d < 10,
    ensures
        r@ == seq![digit_char(d as nat)],
{
    proof {
        reveal_strlit("0");
        reveal_strlit("1");
        reveal_strlit("2");
        reveal_strlit("3");
        reveal_strlit("4");
        reveal_strlit("5");
        reveal_strlit("6");
        reveal_strlit("7");
        reveal_strlit("8");
        reveal_strlit("9");
    }
    if d == 0 {
        "0"
    } else if d == 1 {
        "1"
    } else if d == 2 {
        "2"
    } else if d == 3 {
        "3"
    } else if d == 4 {
        "4"
    } else if d == 5 {
        "5"
    } else if d == 6 {
        "6"
    } else if d == 7 {
        "7"
    } else if d == 8 {
        "8"
    } else {
        "9"
    }
}

/// Writes `n` in decimal, as a positional field index is written.
pub fn decimal_text(n: usize) -> (r: String)
    ensures
        r@ == decimal(n as nat),
    decreases n,
{
    if n < 10 {
        String::from_str(digit(n))
    } else {
        let mut s = decimal_text(n / 10);
        s.append(digit(n % 10));
        s
    }
}

/// Whether two texts are the same.
pub fn same_text(a: &str, b: &str) -> (r: bool)
    ensures
        r == (a@ == b@),
{
    let n = a.unicode_len();
    if n != b.unicode_len() {
        return false;
    }
    let mut i: usize = 0;
    while i < n
        invariant
            n == a@.len() == b@.len(),
            i <= n,
            forall|k: int| 0 <= k < i ==> a@[k] == b@[k],
        decreases n - i,
    {
        if a.get_char(i) != b.get_char(i) {
            return false;
        }
        i = i + 1;
    }
    proof {
        assert(a@ =~= b@);
    }
    true
}

/// Whether attribute `a` is the marker `name`: its first path segment is `name`, bare.
pub open spec fn is_marker(a: AttrDecl, name: Seq<char>) -> bool {
    a.head@ == name && !a.head_has_args
}

/// Whether some attribute of `attrs` is the marker `name`.
pub open spec fn has_marker(attrs: Seq<AttrDecl>, name: Seq<char>) -> bool {
    exists|i: int| 0 <= i < attrs.len() && is_marker(#[trigger] attrs[i], name)
}

/// Whether `i` is the position of the first marker `name` in `attrs`.
pub open spec fn is_first_marker(attrs: Seq<AttrDecl>, name: Seq<char>, i: int) -> bool {
    &&& 0 <= i < attrs.len()
    &&& is_marker(attrs[i], name)
    &&& forall|j: int| 0 <= j < i ==> !is_marker(#[trigger] attrs[j], name)
}

/// Finds the first attribute that is the marker `name`.
pub fn find_marker(attrs: &Vec<AttrDecl>, name: &str) -> (r: Option<usize>)
    ensures
        r is None <==> !has_marker(attrs@, name@),
        r matches Some(i) ==> is_first_marker(attrs@, name@, i as int),
{
    let mut i: usize = 0;
    while i < attrs.len()
        invariant
            i <= attrs@.len(),
            forall|j: int| 0 <= j < i ==> !is_marker(#[trigger] attrs@[j], name@),
        decreases attrs@.len() - i,
    {
        let a = &attrs[i];
        if !a.head_has_args && same_text(a.head.as_str(), name) {
            return Some(i);
        }
        i = i + 1;
    }
    None
}

/// The views of a sequence of strings.
pub open spec fn texts(v: Seq<String>) -> Seq<Seq<char>> {
    v.map_values(|s: String| s@)
}

/// Each item followed by a comma and a space.
pub open spec fn listed(items: Seq<Seq<char>>) -> Seq<char>
    decreases items.len(),
{
    if items.len() == 0 {
        Seq::empty()
    } else {
        listed(items.drop_last()) + items.last() + ", "@
    }
}

/// A generic list between angle brackets; nothing at all for no items.
pub open spec fn angled(items: Seq<Seq<char>>) -> Seq<char> {
    if items.len() == 0 {
        Seq::empty()
    } else {
        "<"@ + listed(items) + ">"@
    }
}

/// The lifetime that every lifetime parameter narrows to.
pub open spec fn fresh_lifetime() -> Seq<char> {
    "'__reborrow_lifetime"@
}

/// A name with its bounds, if it has any.
pub open spec fn bounded(name: Seq<char>, bounds: Seq<char>) -> Seq<char> {
    if bounds.len() == 0 {
        name
    } else {
        name + ": "@ + bounds
    }
}

/// A parameter as it is declared after `impl`: with its bounds.
pub open spec fn param_decl_text(p: ParamDecl) -> Seq<char> {
    match p {
        ParamDecl::Lifetime { name, bounds } => bounded(name@, bounds@),
        ParamDecl::Type { name, bounds } => bounded(name@, bounds@),
        ParamDecl::Const { name, ty } => "const "@ + name@ + ": "@ + ty@,
    }
}

/// A parameter as it is passed to the type: its name alone.
pub open spec fn param_arg_text(p: ParamDecl) -> Seq<char> {
    match p {
        ParamDecl::Lifetime { name, .. } => name@,
        ParamDecl::Type { name, .. } => name@,
        ParamDecl::Const { name, .. } => name@,
    }
}

/// A parameter passed to the narrowed type: each lifetime becomes the fresh one.
pub open spec fn narrowed_arg_text(p: ParamDecl) -> Seq<char> {
    match p {
        ParamDecl::Lifetime { .. } => fresh_lifetime(),
        _ => param_arg_text(p),
    }
}

/// The generics after `impl`.
pub open spec fn impl_generics_text(ps: Seq<ParamDecl>) -> Seq<char> {
    angled(ps.map_values(|p: ParamDecl| param_decl_text(p)))
}

/// The generics after `impl` with the fresh lifetime put in front.
pub open spec fn narrowing_impl_generics_text(ps: Seq<ParamDecl>) -> Seq<char> {
    angled(seq![fresh_lifetime()] + ps.map_values(|p: ParamDecl| param_decl_text(p)))
}

/// The arguments of the type at its own lifetimes.
pub open spec fn ty_generics_text(ps: Seq<ParamDecl>) -> Seq<char> {
    angled(ps.map_values(|p: ParamDecl| param_arg_text(p)))
}

/// The arguments of the type with every lifetime narrowed to the fresh one.
pub open spec fn narrowed_ty_generics_text(ps: Seq<ParamDecl>) -> Seq<char> {
    angled(ps.map_values(|p: ParamDecl| narrowed_arg_text(p)))
}

fn listed_string(items: &Vec<String>) -> (r: String)
    ensures
        r@ == listed(texts(items@)),
{
    let mut s = String::new();
    let mut i: usize = 0;
    while i < items.len()
        invariant
            i <= items@.len(),
            s@ == listed(texts(items@).take(i as int)),
        decreases items@.len() - i,
    {
        proof {
            assert(texts(items@).take(i + 1).drop_last() =~= texts(items@).take(i as int));
        }
        s.append(items[i].as_str());
        s.append(", ");
        i = i + 1;
    }
    proof {
        assert(texts(items@).take(i as int) =~= texts(items@));
    }
    s
}

fn angled_string(items: &Vec<String>) -> (r: String)
    ensures
        r@ == angled(texts(items@)),
{
    if items.len() == 0 {
        String::new()
    } else {
        let mut s = String::from_str("<");
        let inner = listed_string(items);
        s.append(inner.as_str());
        s.append(">");
        s
    }
}

fn bounded_string(name: &String, bounds: &String) -> (r: String)
    ensures
        r@ == bounded(name@, bounds@),
{
    let mut s = name.clone();
    if bounds.unicode_len() != 0 {
        s.append(": ");
        s.append(bounds.as_str());
    }
    s
}

fn param_decl_string(p: &ParamDecl) -> (r: String)
    ensures
        r@ == param_decl_text(*p),
{
    match p {
        ParamDecl::Lifetime { name, bounds } => bounded_string(name, bounds),
        ParamDecl::Type { name, bounds } => bounded_string(name, bounds),
        ParamDecl::Const { name, ty } => {
            let mut s = String::from_str("const ");
            s.append(name.as_str());
            s.append(": ");
            s.append(ty.as_str());
            s
        },
    }
}

fn param_arg_string(p: &ParamDecl, narrowed: bool) -> (r: String)
    ensures
        r@ == if narrowed {
            narrowed_arg_text(*p)
        } else {
            param_arg_text(*p)
        },
{
    match p {
        ParamDecl::Lifetime { name, .. } => {
            if narrowed {
                String::from_str("'__reborrow_lifetime")
            } else {
                name.clone()
            }
        },
        ParamDecl::Type { name, .. } => name.clone(),
        ParamDecl::Const { name, .. } => name.clone(),
    }
}

/// The generics after `impl`: each parameter with its bounds.
pub fn impl_generics(params: &Vec<ParamDecl>) -> (r: String)
    ensures
        r@ == impl_generics_text(params@),
{
    let mut v: Vec<String> = Vec::new();
    let mut i: usize = 0;
    while i < params.len()
        invariant
            i <= params@.len(),
            v@.len() == i,
            forall|k: int| 0 <= k < i ==> #[trigger] v@[k]@ == param_decl_text(params@[k]),
        decreases params@.len() - i,
    {
        v.push(param_decl_string(&params[i]));
        i = i + 1;
    }
    proof {
        assert(texts(v@) =~= params@.map_values(|p: ParamDecl| param_decl_text(p)));
    }
    angled_string(&v)
}

/// The generics after `impl` for a narrowing operation: the fresh lifetime, then each
/// parameter with its bounds.
pub fn narrowing_impl_generics(params: &Vec<ParamDecl>) -> (r: String)
    ensures
        r@ == narrowing_impl_generics_text(params@),
{
    let mut v: Vec<String> = Vec::new();
    v.push(String::from_str("'__reborrow_lifetime"));
    let mut i: usize = 0;
    while i < params.len()
        invariant
            i <= params@.len(),
            v@.len() == i + 1,
            v@[0]@ == fresh_lifetime(),
            forall|k: int| 0 <= k < i ==> #[trigger] v@[k + 1]@ == param_decl_text(params@[k]),
        decreases params@.len() - i,
    {
        v.push(param_decl_string(&params[i]));
        i = i + 1;
    }
    proof {
        let want = seq![fresh_lifetime()] + params@.map_values(|p: ParamDecl| param_decl_text(p));
        assert forall|k: int| 0 <= k < v@.len() implies texts(v@)[k] == want[k] by {
            if k > 0 {
                assert(v@[(k - 1) + 1]@ == param_decl_text(params@[k - 1]));
            }
        }
        assert(texts(v@) =~= want);
    }
    angled_string(&v)
}

/// The arguments of the type: each parameter's name, or with `narrowed` each lifetime
/// replaced by the fresh one.
pub fn ty_generics(params: &Vec<ParamDecl>, narrowed: bool) -> (r: String)
    ensures
        r@ == if narrowed {
            narrowed_ty_generics_text(params@)
        } else {
            ty_generics_text(params@)
        },
{
    let mut v: Vec<String> = Vec::new();
    let mut i: usize = 0;
    while i < params.len()
        invariant
            i <= params@.len(),
            v@.len() == i,
            forall|k: int|
                0 <= k < i ==> #[trigger] v@[k]@ == if narrowed {
                    narrowed_arg_text(params@[k])
                } else {
                    param_arg_text(params@[k])
                },
        decreases params@.len() - i,
    {
        v.push(param_arg_string(&params[i], narrowed));
        i = i + 1;
    }
    proof {
        if narrowed {
            assert(texts(v@) =~= params@.map_values(|p: ParamDecl| narrowed_arg_text(p)));
        } else {
            assert(texts(v@) =~= params@.map_values(|p: ParamDecl| param_arg_text(p)));
        }
    }
    angled_string(&v)
}

/// Whether the field is narrowed by recursion rather than moved or copied through.
pub open spec fn is_recursed(f: FieldDecl) -> bool {
    has_marker(f.attrs@, "reborrow"@)
}

/// How the receiver's field is reached: by name, or by position.
pub open spec fn access_text(idx: nat, f: FieldDecl) -> Seq<char> {
    match f.ident {
        Some(n) => "self."@ + n@,
        None => "self."@ + decimal(idx),
    }
}

/// The expressions that fill a field in `rb_mut`, `rb` and `into_const`, given how the
/// field is reached: the field itself, or the matching operation applied to it.
pub open spec fn exprs_over(e: Seq<char>, f: FieldDecl) -> (Seq<char>, Seq<char>, Seq<char>) {
    if !is_recursed(f) {
        (e, e, e)
    } else {
        (
            "<"@ + f.ty@ + " as ::reborrow::ReborrowMut>::rb_mut(&mut "@ + e + ")"@,
            "<"@ + f.ty@ + " as ::reborrow::Reborrow>::rb(&"@ + e + ")"@,
            "<"@ + f.ty@ + " as ::reborrow::IntoConst>::into_const("@ + e + ")"@,
        )
    }
}

/// The three expressions for the field at position `idx`.
pub open spec fn field_exprs_text(idx: nat, f: FieldDecl) -> (Seq<char>, Seq<char>, Seq<char>) {
    exprs_over(access_text(idx, f), f)
}

/// Computes the expressions that fill field `idx` of the result in each of the three
/// operations.
pub fn reborrow_exprs(idx: usize, f: &FieldDecl) -> (r: (String, String, String))
    ensures
        (r.0@, r.1@, r.2@) == field_exprs_text(idx as nat, *f),
{
    let reborrowable = find_marker(&f.attrs, "reborrow").is_some();
    let mut expr = String::from_str("self.");
    match &f.ident {
        Some(n) => expr.append(n.as_str()),
        None => {
            let digits = decimal_text(idx);
            expr.append(digits.as_str());
        },
    }
    if !reborrowable {
        (expr.clone(), expr.clone(), expr)
    } else {
        let mut m = String::from_str("<");
        m.append(f.ty.as_str());
        m.append(" as ::reborrow::ReborrowMut>::rb_mut(&mut ");
        m.append(expr.as_str());
        m.append(")");
        let mut c = String::from_str("<");
        c.append(f.ty.as_str());
        c.append(" as ::reborrow::Reborrow>::rb(&");
        c.append(expr.as_str());
        c.append(")");
        let mut k = String::from_str("<");
        k.append(f.ty.as_str());
        k.append(" as ::reborrow::IntoConst>::into_const(");
        k.append(expr.as_str());
        k.append(")");
        (m, c, k)
    }
}

/// The fields of a layout, in order.
pub open spec fn layout_fields(fields: FieldsDecl) -> Seq<FieldDecl> {
    match fields {
        FieldsDecl::Named(fs) => fs@,
        FieldsDecl::Unnamed(fs) => fs@,
        FieldsDecl::Unit => Seq::empty(),
    }
}

/// The name under which a named field is initialised.
pub open spec fn field_name(f: FieldDecl) -> Seq<char> {
    match f.ident {
        Some(n) => n@,
        None => Seq::empty(),
    }
}

/// `name: expr` for each named field.
pub open spec fn named_inits(fs: Seq<FieldDecl>, exprs: Seq<Seq<char>>) -> Seq<Seq<char>> {
    Seq::new(fs.len(), |i: int| field_name(fs[i]) + ": "@ + exprs[i])
}

/// A value of the type at `path` built from one expression per field, in the layout's shape.
pub open spec fn construction_text(path: Seq<char>, fields: FieldsDecl, exprs: Seq<Seq<char>>) -> Seq<char> {
    match fields {
        FieldsDecl::Named(fs) => path + " { "@ + listed(named_inits(fs@, exprs)) + "}"@,
        FieldsDecl::Unnamed(_) => path + "("@ + listed(exprs) + ")"@,
        FieldsDecl::Unit => path,
    }
}

/// A type named in expression position, with its arguments, if any, after `::`.
pub open spec fn type_path(name: Seq<char>, generics: Seq<char>) -> Seq<char> {
    if generics.len() == 0 {
        name
    } else {
        name + "::"@ + generics
    }
}

fn type_path_string(name: &str, generics: &String) -> (r: String)
    ensures
        r@ == type_path(name@, generics@),
{
    let mut s = String::from_str(name);
    if generics.unicode_len() != 0 {
        s.append("::");
        s.append(generics.as_str());
    }
    s
}

fn construction_string(path: &String, fields: &FieldsDecl, exprs: &Vec<String>) -> (r: String)
    requires
        exprs@.len() == layout_fields(*fields).len(),
    ensures
        r@ == construction_text(path@, *fields, texts(exprs@)),
{
    match fields {
        FieldsDecl::Named(fs) => {
            let mut inits: Vec<String> = Vec::new();
            let mut i: usize = 0;
            while i < fs.len()
                invariant
                    i <= fs@.len(),
                    fs@.len() == exprs@.len(),
                    inits@.len() == i,
                    forall|k: int|
                        0 <= k < i ==> #[trigger] inits@[k]@ == field_name(fs@[k]) + ": "@
                            + exprs@[k]@,
                decreases fs@.len() - i,
            {
                let mut s = match &fs[i].ident {
                    Some(n) => n.clone(),
                    None => String::new(),
                };
                s.append(": ");
                s.append(exprs[i].as_str());
                inits.push(s);
                i = i + 1;
            }
            proof {
                assert(texts(inits@) =~= named_inits(fs@, texts(exprs@)));
            }
            let mut r = path.clone();
            r.append(" { ");
            let body = listed_string(&inits);
            r.append(body.as_str());
            r.append("}");
            r
        },
        FieldsDecl::Unnamed(_) => {
            let mut r = path.clone();
            r.append("(");
            let body = listed_string(exprs);
            r.append(body.as_str());
            r.append(")");
            r
        },
        FieldsDecl::Unit => path.clone(),
    }
}

/// An `impl` block.
pub open spec fn impl_block(
    generics: Seq<char>,
    tr: Seq<char>,
    ty: Seq<char>,
    where_clause: Seq<char>,
    items: Seq<char>,
) -> Seq<char> {
    "impl"@ + generics + " "@ + tr + " for "@ + ty + " "@ + where_clause + " {\n"@ + items + "}\n"@
}

/// An associated `Target` type.
pub open spec fn target_item(ty: Seq<char>) -> Seq<char> {
    "    type Target = "@ + ty + ";\n"@
}

/// An inlined method.
pub open spec fn method_item(sig: Seq<char>, body: Seq<char>) -> Seq<char> {
    "    #[inline]\n    "@ + sig + " {\n        "@ + body + "\n    }\n"@
}

fn impl_block_string(
    generics: &String,
    tr: &str,
    ty: &String,
    where_clause: &String,
    items: &String,
) -> (r: String)
    ensures
        r@ == impl_block(generics@, tr@, ty@, where_clause@, items@),
{
    let mut s = String::from_str("impl");
    s.append(generics.as_str());
    s.append(" ");
    s.append(tr);
    s.append(" for ");
    s.append(ty.as_str());
    s.append(" ");
    s.append(where_clause.as_str());
    s.append(" {\n");
    s.append(items.as_str());
    s.append("}\n");
    s
}

fn target_string(ty: &String) -> (r: String)
    ensures
        r@ == target_item(ty@),
{
    let mut s = String::from_str("    type Target = ");
    s.append(ty.as_str());
    s.append(";\n");
    s
}

fn method_string(sig: &str, body: &str) -> (r: String)
    ensures
        r@ == method_item(sig@, body@),
{
    let mut s = String::from_str("    #[inline]\n    ");
    s.append(sig);
    s.append(" {\n        ");
    s.append(body);
    s.append("\n    }\n");
    s
}

/// Two texts one after the other.
fn joined(a: String, b: &String) -> (r: String)
    ensures
        r@ == a@ + b@,
{
    let mut s = a;
    s.append(b.as_str());
    s
}

/// The generics of a declaration, rendered the four ways the generated impls use them.
pub struct GenericsText {
    pub impl_generics: String,
    pub narrowing_impl_generics: String,
    pub ty_generics: String,
    pub narrowed_ty_generics: String,
}

/// Whether `g` renders the parameters `ps`.
pub open spec fn renders(g: GenericsText, ps: Seq<ParamDecl>) -> bool {
    &&& g.impl_generics@ == impl_generics_text(ps)
    &&& g.narrowing_impl_generics@ == narrowing_impl_generics_text(ps)
    &&& g.ty_generics@ == ty_generics_text(ps)
    &&& g.narrowed_ty_generics@ == narrowed_ty_generics_text(ps)
}

fn generics_text(params: &Vec<ParamDecl>) -> (r: GenericsText)
    ensures
        renders(r, params@),
{
    GenericsText {
        impl_generics: impl_generics(params),
        narrowing_impl_generics: narrowing_impl_generics(params),
        ty_generics: ty_generics(params, false),
        narrowed_ty_generics: ty_generics(params, true),
    }
}

/// The signature of the generated `rb_mut`.
pub open spec fn rb_mut_sig() -> Seq<char> {
    "fn rb_mut(&'__reborrow_lifetime mut self) -> <Self as ::reborrow::ReborrowMut<'__reborrow_lifetime>>::Target"@
}

/// The signature of the generated `rb`.
pub open spec fn rb_sig() -> Seq<char> {
    "fn rb(&'__reborrow_lifetime self) -> <Self as ::reborrow::Reborrow<'__reborrow_lifetime>>::Target"@
}

/// The signature of the generated `into_const`.
pub open spec fn into_const_sig() -> Seq<char> {
    "fn into_const(self) -> <Self as ::reborrow::IntoConst>::Target"@
}

/// The signature of the generated `as_pseudo_mut`.
pub open spec fn as_pseudo_mut_sig() -> Seq<char> {
    "fn as_pseudo_mut(&'__reborrow_lifetime mut self) -> <Self as ::reborrow::ReborrowMut<'__reborrow_lifetime>>::Target"@
}

/// The signature of the generated `as_pseudo_ref`.
pub open spec fn as_pseudo_ref_sig() -> Seq<char> {
    "fn as_pseudo_ref(&'__reborrow_lifetime self) -> <Self as ::reborrow::Reborrow<'__reborrow_lifetime>>::Target"@
}

/// The three narrowing impls and the two adapter impls of a record, given the source
/// type, the types that `rb_mut`, `rb` and `into_const` produce, and their bodies.
pub open spec fn view_impls(
    ps: Seq<ParamDecl>,
    ty: Seq<char>,
    where_clause: Seq<char>,
    mut_target: Seq<char>,
    ref_target: Seq<char>,
    const_target: Seq<char>,
    bodies: (Seq<char>, Seq<char>, Seq<char>),
    adapter_bodies: (Seq<char>, Seq<char>),
) -> Seq<char> {
    let ig = impl_generics_text(ps);
    let nig = narrowing_impl_generics_text(ps);
    impl_block(
        ig,
        "::reborrow::IntoConst"@,
        ty,
        where_clause,
        target_item(const_target) + method_item(into_const_sig(), bodies.2),
    ) + impl_block(
        nig,
        "::reborrow::ReborrowMut<'__reborrow_lifetime>"@,
        ty,
        where_clause,
        target_item(mut_target) + method_item(rb_mut_sig(), bodies.0),
    ) + impl_block(
        nig,
        "::reborrow::Reborrow<'__reborrow_lifetime>"@,
        ty,
        where_clause,
        target_item(ref_target) + method_item(rb_sig(), bodies.1),
    ) + impl_block(
        nig,
        "::reborrow::AsPseudoMut<'__reborrow_lifetime, "@ + mut_target + ">"@,
        ty,
        where_clause,
        method_item(as_pseudo_mut_sig(), adapter_bodies.0),
    ) + impl_block(
        nig,
        "::reborrow::AsPseudoRef<'__reborrow_lifetime, "@ + ref_target + ">"@,
        ty,
        where_clause,
        method_item(as_pseudo_ref_sig(), adapter_bodies.1),
    )
}

fn view_impls_string(
    g: &GenericsText,
    ty: &String,
    where_clause: &String,
    mut_target: &String,
    ref_target: &String,
    const_target: &String,
    bodies: (&String, &String, &String),
    adapter_bodies: (&str, &str),
) -> (r: String)
    ensures
        forall|ps: Seq<ParamDecl>|
            renders(*g, ps) ==> r@ == view_impls(
                ps,
                ty@,
                where_clause@,
                mut_target@,
                ref_target@,
                const_target@,
                (bodies.0@, bodies.1@, bodies.2@),
                (adapter_bodies.0@, adapter_bodies.1@),
            ),
{
    let into_const_items = joined(
        target_string(const_target),
        &method_string("fn into_const(self) -> <Self as ::reborrow::IntoConst>::Target", bodies.2.as_str()),
    );
    let out = impl_block_string(
        &g.impl_generics,
        "::reborrow::IntoConst",
        ty,
        where_clause,
        &into_const_items,
    );
    let rb_mut_items = joined(
        target_string(mut_target),
        &method_string(
            "fn rb_mut(&'__reborrow_lifetime mut self) -> <Self as ::reborrow::ReborrowMut<'__reborrow_lifetime>>::Target",
            bodies.0.as_str(),
        ),
    );
    let out = joined(
        out,
        &impl_block_string(
            &g.narrowing_impl_generics,
            "::reborrow::ReborrowMut<'__reborrow_lifetime>",
            ty,
            where_clause,
            &rb_mut_items,
        ),
    );
    let rb_items = joined(
        target_string(ref_target),
        &method_string(
            "fn rb(&'__reborrow_lifetime self) -> <Self as ::reborrow::Reborrow<'__reborrow_lifetime>>::Target",
            bodies.1.as_str(),
        ),
    );
    let out = joined(
        out,
        &impl_block_string(
            &g.narrowing_impl_generics,
            "::reborrow::Reborrow<'__reborrow_lifetime>",
            ty,
            where_clause,
            &rb_items,
        ),
    );
    let mut pseudo_mut = String::from_str("::reborrow::AsPseudoMut<'__reborrow_lifetime, ");
    pseudo_mut.append(mut_target.as_str());
    pseudo_mut.append(">");
    let out = joined(
        out,
        &impl_block_string(
            &g.narrowing_impl_generics,
            pseudo_mut.as_str(),
            ty,
            where_clause,
            &method_string(
                "fn as_pseudo_mut(&'__reborrow_lifetime mut self) -> <Self as ::reborrow::ReborrowMut<'__reborrow_lifetime>>::Target",
                adapter_bodies.0,
            ),
        ),
    );
    let mut pseudo_ref = String::from_str("::reborrow::AsPseudoRef<'__reborrow_lifetime, ");
    pseudo_ref.append(ref_target.as_str());
    pseudo_ref.append(">");
    joined(
        out,
        &impl_block_string(
            &g.narrowing_impl_generics,
            pseudo_ref.as_str(),
            ty,
            where_clause,
            &method_string(
                "fn as_pseudo_ref(&'__reborrow_lifetime self) -> <Self as ::reborrow::Reborrow<'__reborrow_lifetime>>::Target",
                adapter_bodies.1,
            ),
        ),
    )
}

/// Relies on `syn::parse_str::<syn::TypeParen>`, and on `quote::ToTokens::to_token_stream`
/// with `proc_macro2::TokenStream`'s `to_string` to print the inner type back as text.
/// The spacing of that text depends on which token backend proc-macro2 uses at the time of
/// the call, so nothing is stated of it.
#[verifier::external_body]
fn parse_paren_type(tokens: &str) -> (r: Option<String>) {
    match syn::parse_str::<syn::TypeParen>(tokens) {
        Ok(p) => Some(quote::ToTokens::to_token_stream(&*p.elem).to_string()),
        Err(_) => None,
    }
}

/// The position of the first marker `name`.
pub open spec fn first_marker_index(attrs: Seq<AttrDecl>, name: Seq<char>) -> int {
    choose|i: int| is_first_marker(attrs, name, i)
}

/// There is at most one first marker.
pub proof fn lemma_first_marker_unique(attrs: Seq<AttrDecl>, name: Seq<char>, i: int)
    requires
        is_first_marker(attrs, name, i),
    ensures
        first_marker_index(attrs, name) == i,
{
    let j = first_marker_index(attrs, name);
    assert(is_first_marker(attrs, name, j));
    if j < i {
        assert(!is_marker(attrs[j], name));
    } else if i < j {
        assert(!is_marker(attrs[i], name));
    }
}

/// The three expressions of each field, in order.
pub open spec fn field_texts(fs: Seq<FieldDecl>) -> Seq<(Seq<char>, Seq<char>, Seq<char>)> {
    Seq::new(fs.len(), |i: int| field_exprs_text(i as nat, fs[i]))
}

/// The bodies of `rb_mut`, `rb` and `into_const`: the record narrowed, the counterpart
/// narrowed, and the counterpart at the original lifetimes.
pub open spec fn reborrow_bodies(d: DeriveDecl, cname: Seq<char>, fields: FieldsDecl) -> (
    Seq<char>,
    Seq<char>,
    Seq<char>,
) {
    let ex = field_texts(layout_fields(fields));
    let tg = ty_generics_text(d.params@);
    let ng = narrowed_ty_generics_text(d.params@);
    (
        construction_text(
            type_path(d.ident@, ng),
            fields,
            ex.map_values(|t: (Seq<char>, Seq<char>, Seq<char>)| t.0),
        ),
        construction_text(
            type_path(cname, ng),
            fields,
            ex.map_values(|t: (Seq<char>, Seq<char>, Seq<char>)| t.1),
        ),
        construction_text(
            type_path(cname, tg),
            fields,
            ex.map_values(|t: (Seq<char>, Seq<char>, Seq<char>)| t.2),
        ),
    )
}

/// The impls generated for a record whose counterpart is `cname`.
pub open spec fn reborrow_impls_text(d: DeriveDecl, cname: Seq<char>, fields: FieldsDecl) -> Seq<char> {
    let tg = ty_generics_text(d.params@);
    let ng = narrowed_ty_generics_text(d.params@);
    view_impls(
        d.params@,
        d.ident@ + tg,
        d.where_clause@,
        d.ident@ + ng,
        cname + ng,
        cname + tg,
        reborrow_bodies(d, cname, fields),
        (
            "<Self as ::reborrow::ReborrowMut>::rb_mut(self)"@,
            "<Self as ::reborrow::Reborrow>::rb(self)"@,
        ),
    )
}

/// The tokens of the first bare `Const` attribute, which name the immutable counterpart.
pub open spec fn counterpart_tokens(d: DeriveDecl) -> Seq<char> {
    d.attrs@[first_marker_index(d.attrs@, "Const"@)].tokens@
}

/// What generation gives for a declaration once the counterpart's name is known: the
/// impls, or why there are none.
pub open spec fn derive_with_const_spec(d: DeriveDecl, cname: Seq<char>) -> Result<Seq<char>, DeriveError> {
    match d.data {
        DataDecl::Struct(fields) => Ok(reborrow_impls_text(d, cname, fields)),
        DataDecl::Enum => Err(DeriveError::Enum),
        DataDecl::Union => Err(DeriveError::Union),
    }
}

/// The tokens of the first bare `Const` attribute, if there is one.
pub fn const_tokens(input: &DeriveDecl) -> (r: Option<&String>)
    ensures
        r is None <==> !has_marker(input.attrs@, "Const"@),
        r matches Some(t) ==> t@ == counterpart_tokens(*input),
{
    match find_marker(&input.attrs, "Const") {
        None => None,
        Some(i) => {
            proof {
                lemma_first_marker_unique(input.attrs@, "Const"@, i as int);
            }
            Some(&input.attrs[i].tokens)
        },
    }
}

fn bodies_string(
    input: &DeriveDecl,
    g: &GenericsText,
    const_name: &String,
    fields: &FieldsDecl,
    fs: &Vec<FieldDecl>,
) -> (r: (String, String, String))
    requires
        renders(*g, input.params@),
        fs@ == layout_fields(*fields),
    ensures
        (r.0@, r.1@, r.2@) == reborrow_bodies(*input, const_name@, *fields),
{
    let mut triples: Vec<(String, String, String)> = Vec::new();
    let mut i: usize = 0;
    while i < fs.len()
        invariant
            i <= fs@.len(),
            triples@.len() == i,
            forall|k: int|
                0 <= k < i ==> {
                    let t = #[trigger] triples@[k];
                    (t.0@, t.1@, t.2@) == field_exprs_text(k as nat, fs@[k])
                },
        decreases fs@.len() - i,
    {
        triples.push(reborrow_exprs(i, &fs[i]));
        i = i + 1;
    }
    let ghost all = triples@;
    let (f0, f1, f2) = unzip3(triples);
    let ghost ex = field_texts(fs@);
    proof {
        assert(texts(f0@) =~= ex.map_values(|t: (Seq<char>, Seq<char>, Seq<char>)| t.0));
        assert(texts(f1@) =~= ex.map_values(|t: (Seq<char>, Seq<char>, Seq<char>)| t.1));
        assert(texts(f2@) =~= ex.map_values(|t: (Seq<char>, Seq<char>, Seq<char>)| t.2));
    }
    let own_path = type_path_string(input.ident.as_str(), &g.narrowed_ty_generics);
    let narrowed_path = type_path_string(const_name.as_str(), &g.narrowed_ty_generics);
    let const_path = type_path_string(const_name.as_str(), &g.ty_generics);
    (
        construction_string(&own_path, fields, &f0),
        construction_string(&narrowed_path, fields, &f1),
        construction_string(&const_path, fields, &f2),
    )
}

/// Generates `IntoConst`, `ReborrowMut`, `Reborrow`, `AsPseudoMut` and `AsPseudoRef` for a
/// record whose immutable counterpart is the type `const_name`. Fields marked `reborrow`
/// are narrowed by the matching operation; the others are moved or copied.
pub fn derive_reborrow_with_const(input: &DeriveDecl, const_name: &str) -> (r: Result<
    String,
    DeriveError,
>)
    ensures
        match (r, derive_with_const_spec(*input, const_name@)) {
            (Ok(t), Ok(u)) => t@ == u,
            (Err(e), Err(f)) => e == f,
            _ => false,
        },
{
    let fields = match &input.data {
        DataDecl::Struct(f) => f,
        DataDecl::Enum => return Err(DeriveError::Enum),
        DataDecl::Union => return Err(DeriveError::Union),
    };
    let const_name = String::from_str(const_name);
    let g = generics_text(&input.params);
    let none: Vec<FieldDecl> = Vec::new();
    let fs = match fields {
        FieldsDecl::Named(fs) => fs,
        FieldsDecl::Unnamed(fs) => fs,
        FieldsDecl::Unit => &none,
    };
    proof {
        assert(fs@ =~= layout_fields(*fields));
    }
    let (rb_mut_body, rb_body, into_const_body) = bodies_string(input, &g, &const_name, fields, fs);
    let ty = joined(input.ident.clone(), &g.ty_generics);
    let mut_target = joined(input.ident.clone(), &g.narrowed_ty_generics);
    let ref_target = joined(const_name.clone(), &g.narrowed_ty_generics);
    let const_target = joined(const_name.clone(), &g.ty_generics);
    Ok(
        view_impls_string(
            &g,
            &ty,
            &input.where_clause,
            &mut_target,
            &ref_target,
            &const_target,
            (&rb_mut_body, &rb_body, &into_const_body),
            (
                "<Self as ::reborrow::ReborrowMut>::rb_mut(self)",
                "<Self as ::reborrow::Reborrow>::rb(self)",
            ),
        ),
    )
}

/// Generates the view impls for a record whose first bare `Const` attribute holds its
/// immutable counterpart as a parenthesised type. The tokens of that attribute, and only
/// those, are read by syn; the type it finds is handed to `derive_reborrow_with_const`.
pub fn derive_reborrow(input: &DeriveDecl) -> (r: Result<String, DeriveError>)
    ensures
        (r == Err::<String, DeriveError>(DeriveError::MissingConst)) <==> !has_marker(
            input.attrs@,
            "Const"@,
        ),
        r matches Err(DeriveError::BadConst) ==> has_marker(input.attrs@, "Const"@),
        r matches Err(DeriveError::Enum) ==> input.data is Enum,
        r matches Err(DeriveError::Union) ==> input.data is Union,
        r matches Ok(t) ==> has_marker(input.attrs@, "Const"@) && (input.data matches DataDecl::Struct(
            fields,
        ) && exists|c: Seq<char>| t@ == reborrow_impls_text(*input, c, fields)),
        has_marker(input.attrs@, "Const"@) && input.data is Struct ==> r is Ok || r matches Err(
            DeriveError::BadConst,
        ),
        has_marker(input.attrs@, "Const"@) && input.data is Enum ==> r matches Err(
            DeriveError::Enum,
        ) || r matches Err(DeriveError::BadConst),
        has_marker(input.attrs@, "Const"@) && input.data is Union ==> r matches Err(
            DeriveError::Union,
        ) || r matches Err(DeriveError::BadConst),
{
    let tokens = match const_tokens(input) {
        None => return Err(DeriveError::MissingConst),
        Some(t) => t,
    };
    let const_name = match parse_paren_type(tokens.as_str()) {
        None => return Err(DeriveError::BadConst),
        Some(c) => c,
    };
    let r = derive_reborrow_with_const(input, const_name.as_str());
    proof {
        if r is Ok && input.data is Struct {
            let fields = input.data->Struct_0;
            assert(r->Ok_0@ == reborrow_impls_text(*input, const_name@, fields));
        }
    }
    r
}

/// The impls generated for a duplicable view: `Copy`, `Clone`, and the view operations
/// as plain copies of the receiver.
pub open spec fn reborrow_copy_text(d: DeriveDecl) -> Seq<char> {
    let tg = ty_generics_text(d.params@);
    let ng = narrowed_ty_generics_text(d.params@);
    let ty = d.ident@ + tg;
    impl_block(impl_generics_text(d.params@), "::core::marker::Copy"@, ty, d.where_clause@, Seq::empty())
        + impl_block(
        impl_generics_text(d.params@),
        "::core::clone::Clone"@,
        ty,
        d.where_clause@,
        method_item("fn clone(&self) -> Self"@, "*self"@),
    ) + view_impls(
        d.params@,
        ty,
        d.where_clause@,
        d.ident@ + ng,
        d.ident@ + ng,
        ty,
        ("*self"@, "*self"@, "self"@),
        ("*self"@, "*self"@),
    )
}

/// Generates `Copy`, `Clone` and the view operations for a view type whose data can be
/// duplicated as a whole: narrowing copies the receiver at the shorter lifetime, and the
/// type is its own immutable counterpart.
pub fn derive_reborrow_copy(input: &DeriveDecl) -> (r: String)
    ensures
        r@ == reborrow_copy_text(*input),
{
    let g = generics_text(&input.params);
    let ty = joined(input.ident.clone(), &g.ty_generics);
    let narrowed = joined(input.ident.clone(), &g.narrowed_ty_generics);
    let empty = String::new();
    let out = impl_block_string(&g.impl_generics, "::core::marker::Copy", &ty, &input.where_clause, &empty);
    let out = joined(
        out,
        &impl_block_string(
            &g.impl_generics,
            "::core::clone::Clone",
            &ty,
            &input.where_clause,
            &method_string("fn clone(&self) -> Self", "*self"),
        ),
    );
    let star = String::from_str("*self");
    let plain = String::from_str("self");
    joined(
        out,
        &view_impls_string(
            &g,
            &ty,
            &input.where_clause,
            &narrowed,
            &narrowed,
            &ty,
            (&star, &star, &plain),
            ("*self", "*self"),
        ),
    )
}

/// A positional field and a named field with the same type and markers are filled the same
/// way in all three operations; only the way the receiver's field is reached differs.
pub proof fn positional_field_matches_named(idx: nat, f: FieldDecl, g: FieldDecl)
    requires
        f.attrs@ == g.attrs@,
        f.ty@ == g.ty@,
        f.ident is Some,
        g.ident is None,
    ensures
        field_exprs_text(idx, f) == exprs_over("self."@ + field_name(f), f),
        field_exprs_text(idx, g) == exprs_over("self."@ + decimal(idx), g),
        forall|e: Seq<char>| exprs_over(e, f) == exprs_over(e, g),
{
}

} // verus!
