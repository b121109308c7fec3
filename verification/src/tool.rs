//! Declaring Rust functions as tools that the model may call.
//!
//! A tool function is described to the model by a [`FunctionDeclaration`]
//! whose parameter schema is derived from the function's signature. The
//! signature is taken in the plain form below: a type is a path of named
//! segments, each with its generic arguments, and anything else is `Other`.
use vstd::prelude::*;
use crate::text::{join_lines, same_text, trim, trim_start};
use crate::types::{FunctionDeclaration, Schema};
use crate::json::{json_debug, json_empty_map, json_object, json_object_entries};

verus! {

/// A Rust type, as far as a schema is derived from it.
#[derive(Debug, PartialEq)]
pub enum TypeRepr {
    /// A path such as `String`, `Option<i32>` or `std::sync::Arc<State>`.
    Path(TypePathRepr),
    /// Any other type: a reference, a tuple, a slice, ...
    Other,
}

/// A type path: its segments, and whether it starts with `::`.
#[derive(Debug, PartialEq)]
pub struct TypePathRepr {
    pub leading_colon: bool,
    pub segments: Vec<PathSegmentRepr>,
}

/// One segment of a path: its name and its arguments.
#[derive(Debug, PartialEq)]
pub struct PathSegmentRepr {
    pub ident: String,
    pub arguments: PathArgumentsRepr,
}

/// The arguments of a path segment.
#[derive(Debug, PartialEq)]
pub enum PathArgumentsRepr {
    /// No arguments, as in `String`.
    NoArguments,
    /// Arguments in angle brackets, as in `Option<T>`.
    AngleBracketed(Vec<GenericArgumentRepr>),
    /// Arguments in parentheses, as in `Fn(A) -> B`.
    Parenthesized,
}

/// One generic argument.
#[derive(Debug, PartialEq)]
pub enum GenericArgumentRepr {
    /// A type argument.
    Type(TypeRepr),
    /// A lifetime, a constant, a binding or a constraint.
    Other,
}

/// The schema type of a scalar Rust type, by the type's name.
pub open spec fn base_schema_type(name: Seq<char>) -> Option<Seq<char>> {
    if name == "String"@ {
        Some("STRING"@)
    } else if name == "i32"@ || name == "i64"@ || name == "u32"@ || name == "u64"@ || name
        == "isize"@ || name == "usize"@ {
        Some("INTEGER"@)
    } else if name == "f32"@ || name == "f64"@ {
        Some("NUMBER"@)
    } else if name == "bool"@ {
        Some("BOOLEAN"@)
    } else {
        None
    }
}

/// The first generic argument of a segment, when the segment has angle-bracketed
/// arguments and the first of them is a type.
pub open spec fn first_type_argument(seg: PathSegmentRepr) -> Option<TypeRepr> {
    match seg.arguments {
        PathArgumentsRepr::AngleBracketed(args) => if args@.len() > 0 {
            match args@[0] {
                GenericArgumentRepr::Type(t) => Some(t),
                GenericArgumentRepr::Other => None,
            }
        } else {
            None
        },
        _ => None,
    }
}

/// The schema type of a parameter type, and whether the parameter is optional:
/// `Option<T>` is the optional form of `T`, and the scalar types have the types
/// of [`base_schema_type`]. Other types have no schema.
pub open spec fn schema_info(ty: TypeRepr) -> Option<(Seq<char>, bool)>
    decreases ty,
{
    match ty {
        TypeRepr::Path(p) => if p.segments@.len() == 0 {
            None
        } else {
            let seg = p.segments@.last();
            if seg.ident@ == "Option"@ && first_type_argument(seg) is Some {
                match seg.arguments {
                    PathArgumentsRepr::AngleBracketed(args) => match args@[0] {
                        GenericArgumentRepr::Type(inner) => {
                            proof {
                                assert(decreases_to!(ty => p));
                                assert(decreases_to!(p => p.segments));
                                assert(decreases_to!(p.segments => p.segments@));
                                assert(decreases_to!(p.segments@ => seg));
                                assert(decreases_to!(seg => seg.arguments));
                                assert(decreases_to!(seg.arguments => args));
                                assert(decreases_to!(args => args@));
                                assert(decreases_to!(args@ => args@[0]));
                            }
                            match schema_info(inner) {
                                Some(info) => Some((info.0, true)),
                                None => None,
                            }
                        },
                        GenericArgumentRepr::Other => None,
                    },
                    _ => None,
                }
            } else {
                match base_schema_type(seg.ident@) {
                    Some(t) => Some((t, false)),
                    None => None,
                }
            }
        },
        TypeRepr::Other => None,
    }
}

/// The schema information of a parameter type with its text taken by its view.
pub open spec fn schema_info_view(r: Option<(String, bool)>) -> Option<(Seq<char>, bool)> {
    match r {
        Some(p) => Some((p.0@, p.1)),
        None => None,
    }
}

/// The schema type of a scalar type name.
fn base_schema_type_of(name: &str) -> (r: Option<String>)
    ensures
        match r {
            Some(t) => base_schema_type(name@) == Some(t@),
            None => base_schema_type(name@) is None,
        },
{
    if same_text(name, "String") {
        Some(String::from_str("STRING"))
    } else if same_text(name, "i32") || same_text(name, "i64") || same_text(name, "u32")
        || same_text(name, "u64") || same_text(name, "isize") || same_text(name, "usize") {
        Some(String::from_str("INTEGER"))
    } else if same_text(name, "f32") || same_text(name, "f64") {
        Some(String::from_str("NUMBER"))
    } else if same_text(name, "bool") {
        Some(String::from_str("BOOLEAN"))
    } else {
        None
    }
}

/// The schema type of a parameter type, and whether the parameter is optional.
pub fn rust_type_to_schema_info(ty: &TypeRepr) -> (r: Option<(String, bool)>)
    ensures
        schema_info_view(r) == schema_info(*ty),
    decreases ty,
{
    match ty {
        TypeRepr::Path(p) => {
            let n = p.segments.len();
            if n == 0 {
                return None;
            }
            let seg = &p.segments[n - 1];
            if same_text(seg.ident.as_str(), "Option") {
                if let PathArgumentsRepr::AngleBracketed(args) = &seg.arguments {
                    if args.len() > 0 {
                        if let GenericArgumentRepr::Type(inner) = &args[0] {
                            proof {
                                assert(decreases_to!(*ty => *p));
                                assert(decreases_to!(*p => p.segments));
                                assert(decreases_to!(p.segments => p.segments@));
                                assert(decreases_to!(p.segments@ => *seg));
                                assert(decreases_to!(*seg => seg.arguments));
                                assert(decreases_to!(seg.arguments => *args));
                                assert(decreases_to!(*args => args@));
                                assert(decreases_to!(args@ => args@[0]));
                            }
                            return match rust_type_to_schema_info(inner) {
                                Some(info) => Some((info.0, true)),
                                None => None,
                            };
                        }
                    }
                }
            }
            match base_schema_type_of(seg.ident.as_str()) {
                Some(t) => Some((t, false)),
                None => None,
            }
        },
        TypeRepr::Other => None,
    }
}

/// The two type arguments of `Result<T, E>`: the type is a path whose last
/// segment is `Result` with exactly two angle-bracketed arguments, both types.
pub open spec fn result_types(ty: TypeRepr) -> Option<(TypeRepr, TypeRepr)> {
    match ty {
        TypeRepr::Path(p) => if p.segments@.len() == 0 {
            None
        } else {
            let seg = p.segments@.last();
            match seg.arguments {
                PathArgumentsRepr::AngleBracketed(args) => if seg.ident@ == "Result"@
                    && args@.len() == 2 {
                    match (args@[0], args@[1]) {
                        (GenericArgumentRepr::Type(ok), GenericArgumentRepr::Type(err)) => Some(
                            (ok, err),
                        ),
                        _ => None,
                    }
                } else {
                    None
                },
                _ => None,
            }
        },
        TypeRepr::Other => None,
    }
}

/// Any type whose last path segment is `Result` with exactly two type arguments
/// is a `Result`, whatever those two types are (a path, a tuple such as `()`, a
/// reference): its success and error types are the two arguments, in order.
pub proof fn lemma_result_types_of_result(ty: TypeRepr, args: Vec<GenericArgumentRepr>)
    requires
        ty matches TypeRepr::Path(p) && p.segments@.len() > 0 && p.segments@.last().ident@
            == "Result"@ && p.segments@.last().arguments == PathArgumentsRepr::AngleBracketed(
            args,
        ),
        args@.len() == 2,
        args@[0] is Type,
        args@[1] is Type,
    ensures
        result_types(ty) == Some((args@[0]->Type_0, args@[1]->Type_0)),
        return_kind(ReturnRepr::Type(ty)) == ToolReturn::Result,
{
}

/// Only such a type is a `Result`: when success and error types are found, the
/// last segment is `Result` and its arguments are exactly those two types.
pub proof fn lemma_result_types_only_of_result(ty: TypeRepr)
    ensures
        result_types(ty) matches Some((ok, err)) ==> {
            &&& ty matches TypeRepr::Path(p)
            &&& p.segments@.len() > 0
            &&& p.segments@.last().ident@ == "Result"@
            &&& p.segments@.last().arguments matches PathArgumentsRepr::AngleBracketed(args)
            &&& args@ == seq![GenericArgumentRepr::Type(ok), GenericArgumentRepr::Type(err)]
        },
{
    if let Some((ok, err)) = result_types(ty) {
        if let TypeRepr::Path(p) = ty {
            if let PathArgumentsRepr::AngleBracketed(args) = p.segments@.last().arguments {
                assert(args@ =~= seq![GenericArgumentRepr::Type(ok), GenericArgumentRepr::Type(err)]);
            }
        }
    }
}

/// The success and error types of a `Result` return type.
pub fn get_result_types(ty: &TypeRepr) -> (r: Option<(&TypeRepr, &TypeRepr)>)
    ensures
        match (r, result_types(*ty)) {
            (Some(p), Some(q)) => *p.0 == q.0 && *p.1 == q.1,
            (None, None) => true,
            _ => false,
        },
{
    match ty {
        TypeRepr::Path(p) => {
            let n = p.segments.len();
            if n == 0 {
                return None;
            }
            let seg = &p.segments[n - 1];
            match &seg.arguments {
                PathArgumentsRepr::AngleBracketed(args) => {
                    if same_text(seg.ident.as_str(), "Result") && args.len() == 2 {
                        match (&args[0], &args[1]) {
                            (GenericArgumentRepr::Type(ok), GenericArgumentRepr::Type(err)) => Some(
                                (ok, err),
                            ),
                            _ => None,
                        }
                    } else {
                        None
                    }
                },
                _ => None,
            }
        },
        TypeRepr::Other => None,
    }
}

/// Whether a type is `Arc<T>`: its last segment is `Arc` with angle-bracketed
/// arguments, and the path is `Arc` alone, ends in `std::sync::Arc`, or is
/// `::std::sync::Arc` followed by further segments.
pub open spec fn is_arc(ty: TypeRepr) -> bool {
    match ty {
        TypeRepr::Path(p) => {
            let segs = p.segments@;
            let n = segs.len();
            &&& n > 0
            &&& segs.last().ident@ == "Arc"@
            &&& segs.last().arguments is AngleBracketed
            &&& {
                ||| n == 1
                ||| (n >= 3 && segs[n - 3].ident@ == "std"@ && segs[n - 2].ident@ == "sync"@)
                ||| (p.leading_colon && n >= 3 && segs[0].ident@ == "std"@ && segs[1].ident@
                    == "sync"@ && segs[2].ident@ == "Arc"@)
            }
        },
        TypeRepr::Other => false,
    }
}

/// Whether a type is `Arc<T>`, the form in which a tool function takes the
/// client's state.
pub fn is_arc_type(ty: &TypeRepr) -> (r: bool)
    ensures
        r == is_arc(*ty),
{
    match ty {
        TypeRepr::Path(p) => {
            let n = p.segments.len();
            if n == 0 {
                return false;
            }
            let last = &p.segments[n - 1];
            if !same_text(last.ident.as_str(), "Arc") {
                return false;
            }
            if !matches!(last.arguments, PathArgumentsRepr::AngleBracketed(_)) {
                return false;
            }
            if n == 1 {
                return true;
            }
            if n >= 3 && same_text(p.segments[n - 3].ident.as_str(), "std") && same_text(
                p.segments[n - 2].ident.as_str(),
                "sync",
            ) {
                return true;
            }
            p.leading_colon && n >= 3 && same_text(p.segments[0].ident.as_str(), "std")
                && same_text(p.segments[1].ident.as_str(), "sync") && same_text(
                p.segments[2].ident.as_str(),
                "Arc",
            )
        },
        TypeRepr::Other => false,
    }
}

/// An attribute of a function, as far as a description is read from it.
#[derive(Debug, PartialEq)]
pub struct AttributeRepr {
    /// Whether the attribute's path is the identifier `doc`.
    pub is_doc: bool,
    pub meta: AttrMetaRepr,
}

/// The form of an attribute.
#[derive(Debug, PartialEq)]
pub enum AttrMetaRepr {
    /// `name = literal`, as doc comments are.
    NameValueLiteral(LiteralRepr),
    /// Any other form.
    Other,
}

/// A literal.
#[derive(Debug, PartialEq)]
pub enum LiteralRepr {
    /// A string literal, by its value.
    Str(String),
    /// Any other literal.
    Other,
}

/// The lines of the doc attributes, each without its leading white space, or the
/// first complaint about a doc attribute of another form.
pub open spec fn doc_lines(attrs: Seq<AttributeRepr>) -> Result<Seq<Seq<char>>, Seq<char>>
    decreases attrs.len(),
{
    if attrs.len() == 0 {
        Ok(Seq::empty())
    } else {
        match doc_lines(attrs.drop_last()) {
            Err(e) => Err(e),
            Ok(lines) => {
                let a = attrs.last();
                if !a.is_doc {
                    Ok(lines)
                } else {
                    match a.meta {
                        AttrMetaRepr::NameValueLiteral(LiteralRepr::Str(s)) => Ok(
                            lines.push(crate::text::trim_start_text(s@)),
                        ),
                        AttrMetaRepr::NameValueLiteral(LiteralRepr::Other) => Err(
                            "Expected string literal in doc attribute"@,
                        ),
                        AttrMetaRepr::Other => Err(
                            "Unsupported doc attribute format. Use /// comment or #[doc = \"...\"]"@,
                        ),
                    }
                }
            },
        }
    }
}

/// The description given by the doc comments: their lines joined by newlines and
/// trimmed; an error when there is none or one is malformed.
pub open spec fn description_from_attrs(attrs: Seq<AttributeRepr>) -> Result<Seq<char>, Seq<char>> {
    match doc_lines(attrs) {
        Err(e) => Err(e),
        Ok(lines) => if lines.len() == 0 {
            Err("Missing description: Add a /// doc comment above the function."@)
        } else {
            Ok(crate::text::trim_text(crate::text::join_lines_text(lines)))
        },
    }
}

/// Whether an attribute is a doc attribute.
pub open spec fn is_doc_attribute(a: AttributeRepr) -> bool {
    a.is_doc
}

/// The description depends on the doc attributes alone: removing, or adding,
/// attributes of any other path anywhere leaves it as it is. Every list of
/// attributes describes the function as its doc attributes, in order, do.
pub proof fn lemma_description_reads_doc_attributes_only(attrs: Seq<AttributeRepr>)
    ensures
        description_from_attrs(attrs) == description_from_attrs(
            attrs.filter(|a: AttributeRepr| is_doc_attribute(a)),
        ),
{
    lemma_doc_lines_filter(attrs);
}

proof fn lemma_doc_lines_filter(attrs: Seq<AttributeRepr>)
    ensures
        doc_lines(attrs) == doc_lines(attrs.filter(|a: AttributeRepr| is_doc_attribute(a))),
    decreases attrs.len(),
{
    reveal(Seq::filter);
    let p = |a: AttributeRepr| is_doc_attribute(a);
    if attrs.len() > 0 {
        lemma_doc_lines_filter(attrs.drop_last());
        let g = attrs.drop_last().filter(p);
        let f = attrs.filter(p);
        if attrs.last().is_doc {
            assert(f == g.push(attrs.last()));
            assert(f.drop_last() =~= g);
            assert(f.last() == attrs.last());
        } else {
            assert(f == g);
        }
    }
}

/// A result of text, with both sides taken by their views.
pub open spec fn text_result_view(r: Result<String, String>) -> Result<Seq<char>, Seq<char>> {
    match r {
        Ok(s) => Ok(s@),
        Err(e) => Err(e@),
    }
}

/// The description of a function, read from its doc comments.
pub fn get_description_from_attrs(attrs: &[AttributeRepr]) -> (r: Result<String, String>)
    ensures
        text_result_view(r) == description_from_attrs(attrs@),
{
    let mut lines: Vec<String> = Vec::new();
    let mut i: usize = 0;
    assert(attrs@.take(0) =~= Seq::<AttributeRepr>::empty());
    assert(lines@.map_values(|l: String| l@) =~= Seq::<Seq<char>>::empty());
    while i < attrs.len()
        invariant
            i <= attrs.len(),
            doc_lines(attrs@.take(i as int)) == Ok::<Seq<Seq<char>>, Seq<char>>(
                lines@.map_values(|l: String| l@),
            ),
        decreases attrs.len() - i,
    {
        assert(attrs@.take(i + 1).drop_last() =~= attrs@.take(i as int));
        let attr = &attrs[i];
        if attr.is_doc {
            match &attr.meta {
                AttrMetaRepr::NameValueLiteral(LiteralRepr::Str(s)) => {
                    let line = String::from_str(trim_start(s.as_str()));
                    let ghost before = lines@;
                    lines.push(line);
                    assert(lines@.map_values(|l: String| l@) =~= before.map_values(
                        |l: String| l@,
                    ).push(crate::text::trim_start_text(s@)));
                },
                AttrMetaRepr::NameValueLiteral(LiteralRepr::Other) => {
                    assert(doc_lines(attrs@.take(i + 1)) is Err);
                    proof {
                        lemma_doc_lines_error_persists(attrs@, i as int + 1);
                    }
                    return Err(String::from_str("Expected string literal in doc attribute"));
                },
                AttrMetaRepr::Other => {
                    proof {
                        lemma_doc_lines_error_persists(attrs@, i as int + 1);
                    }
                    return Err(
                        String::from_str(
                            "Unsupported doc attribute format. Use /// comment or #[doc = \"...\"]",
                        ),
                    );
                },
            }
        }
        i = i + 1;
    }
    assert(attrs@.take(attrs.len() as int) =~= attrs@);
    if lines.len() == 0 {
        return Err(String::from_str("Missing description: Add a /// doc comment above the function."));
    }
    let joined = join_lines(&lines);
    Ok(String::from_str(trim(joined.as_str())))
}

/// Once a prefix of the attributes holds a malformed doc attribute, every longer
/// prefix reports the same complaint.
proof fn lemma_doc_lines_error_persists(attrs: Seq<AttributeRepr>, k: int)
    requires
        0 <= k <= attrs.len(),
        doc_lines(attrs.take(k)) is Err,
    ensures
        doc_lines(attrs) == doc_lines(attrs.take(k)),
    decreases attrs.len() - k,
{
    if k < attrs.len() {
        assert(attrs.take(k + 1).drop_last() =~= attrs.take(k));
        lemma_doc_lines_error_persists(attrs, k + 1);
    } else {
        assert(attrs.take(k) =~= attrs);
    }
}

/// A parameter of a function.
#[derive(Debug, PartialEq)]
pub enum FnArgRepr {
    /// `self` in any of its forms.
    Receiver,
    /// A typed parameter.
    Typed(TypedArgRepr),
}

/// A typed parameter: its name when its pattern is a plain identifier, its type,
/// and the source text of its type.
#[derive(Debug, PartialEq)]
pub struct TypedArgRepr {
    pub ident: Option<String>,
    pub ty: TypeRepr,
    pub ty_text: String,
}

/// The declared return type of a function.
#[derive(Debug, PartialEq)]
pub enum ReturnRepr {
    /// No return type: the function returns `()`.
    Default,
    /// A return type.
    Type(TypeRepr),
}

/// A function to be offered as a tool.
#[derive(Debug, PartialEq)]
pub struct ToolFnRepr {
    pub name: String,
    pub is_async: bool,
    pub inputs: Vec<FnArgRepr>,
    pub output: ReturnRepr,
}

/// A parameter that the model supplies, by name, as an entry of the call's
/// JSON arguments.
#[derive(Debug, Clone, PartialEq)]
pub struct ToolParam {
    pub name: String,
    /// Whether the parameter is an `Option` and may be left out.
    pub optional: bool,
    /// The position of the parameter among the function's inputs.
    pub input_index: usize,
}

/// How the function's result becomes the tool's JSON result.
#[derive(Debug, Clone, Copy, PartialEq)]
pub enum ToolReturn {
    /// The function returns `()`: the result is `{}`.
    Unit,
    /// The function returns a `Result`: `Ok(v)` gives `{"result": v}` and
    /// `Err(e)` gives `{"error": e}` as text.
    Result,
    /// The function returns a value `v`: the result is `{"result": v}`.
    Value,
}

/// Everything that the `tool_function` attribute derives from a function.
#[derive(Debug, PartialEq)]
pub struct ToolPlan {
    /// The declaration offered to the model.
    pub declaration: FunctionDeclaration,
    /// The state type `S` when the function's first parameter is an `Arc<S>`.
    pub state_type: Option<TypeRepr>,
    /// The parameters taken from the call's arguments, in order.
    pub params: Vec<ToolParam>,
    pub result_form: ToolReturn,
}

/// A parameter's name, schema type and optionality, or the complaint about it.
pub open spec fn param_entry(arg: FnArgRepr) -> Result<(Seq<char>, Seq<char>, bool), Seq<char>> {
    match arg {
        FnArgRepr::Receiver => Err("Unsupported argument type (expected typed ident)"@),
        FnArgRepr::Typed(a) => match a.ident {
            None => Err("Parameter must be a simple ident"@),
            Some(name) => match schema_info(a.ty) {
                None => Err("Unsupported parameter type for schema: "@ + a.ty_text@),
                Some(info) => Ok((name@, info.0, info.1)),
            },
        },
    }
}

/// The entries of the parameters, or the complaint about the first parameter
/// that has none.
pub open spec fn param_entries(args: Seq<FnArgRepr>) -> Result<
    Seq<(Seq<char>, Seq<char>, bool)>,
    Seq<char>,
>
    decreases args.len(),
{
    if args.len() == 0 {
        Ok(Seq::empty())
    } else {
        match param_entries(args.drop_last()) {
            Err(e) => Err(e),
            Ok(entries) => match param_entry(args.last()) {
                Err(e) => Err(e),
                Ok(entry) => Ok(entries.push(entry)),
            },
        }
    }
}

/// The names of the parameters that are not optional, in order.
pub open spec fn required_names(entries: Seq<(Seq<char>, Seq<char>, bool)>) -> Seq<Seq<char>>
    decreases entries.len(),
{
    if entries.len() == 0 {
        Seq::empty()
    } else if entries.last().2 {
        required_names(entries.drop_last())
    } else {
        required_names(entries.drop_last()).push(entries.last().0)
    }
}

/// Whether the function's first parameter carries the client's state.
pub open spec fn takes_state(inputs: Seq<FnArgRepr>) -> bool {
    &&& inputs.len() > 0
    &&& inputs[0] matches FnArgRepr::Typed(a) && is_arc(a.ty)
}

/// The state type `S` of a first parameter `Arc<S>`.
pub open spec fn state_type_of(inputs: Seq<FnArgRepr>) -> Option<TypeRepr> {
    if takes_state(inputs) {
        match inputs[0] {
            FnArgRepr::Typed(a) => match a.ty {
                TypeRepr::Path(p) => first_type_argument(p.segments@.last()),
                TypeRepr::Other => None,
            },
            FnArgRepr::Receiver => None,
        }
    } else {
        None
    }
}

/// The parameters that the model supplies: all but the state parameter.
pub open spec fn json_inputs(inputs: Seq<FnArgRepr>) -> Seq<FnArgRepr> {
    if takes_state(inputs) {
        inputs.drop_first()
    } else {
        inputs
    }
}

/// The complaint that stops the expansion of the attribute, if any.
pub open spec fn plan_error(description: Result<Seq<char>, Seq<char>>, f: ToolFnRepr) -> Option<
    Seq<char>,
> {
    if !f.is_async {
        Some("Tool function must be async"@)
    } else if description is Err {
        Some(description->Err_0)
    } else if takes_state(f.inputs@) && state_type_of(f.inputs@) is None {
        Some("Arc state argument must have a generic type parameter, e.g., Arc<MyState>"@)
    } else {
        match param_entries(json_inputs(f.inputs@)) {
            Err(e) => Some(e),
            Ok(_) => None,
        }
    }
}

/// The schema of an entry of the parameter object: its type and nothing else.
pub open spec fn is_plain_schema(s: Schema, schema_type: Seq<char>) -> bool {
    &&& s.schema_type@ == schema_type
    &&& s.properties is None
    &&& s.required is None
    &&& s.description is None
}

/// The parameter schema of the declaration: an object with one entry per
/// parameter, and the list of required parameters when there are any.
pub open spec fn is_parameter_schema(s: Schema, entries: Seq<(Seq<char>, Seq<char>, bool)>) -> bool {
    &&& s.schema_type@ == "OBJECT"@
    &&& s.description is None
    &&& if entries.len() == 0 {
        s.properties is None
    } else {
        &&& s.properties is Some
        &&& s.properties->0@.len() == entries.len()
        &&& forall|i: int|
            0 <= i < entries.len() ==> {
                &&& (#[trigger] s.properties->0@[i]).0@ == entries[i].0
                &&& is_plain_schema(s.properties->0@[i].1, entries[i].1)
            }
    }
    &&& if required_names(entries).len() == 0 {
        s.required is None
    } else {
        s.required is Some && s.required->0@.map_values(|n: String| n@) == required_names(entries)
    }
}

/// How a return type becomes the tool's result.
pub open spec fn return_kind(output: ReturnRepr) -> ToolReturn {
    match output {
        ReturnRepr::Default => ToolReturn::Unit,
        ReturnRepr::Type(t) => if result_types(t) is Some {
            ToolReturn::Result
        } else {
            ToolReturn::Value
        },
    }
}

/// Whether a plan is the expansion of the function with the given description.
pub open spec fn is_plan_of(p: ToolPlan, description: Seq<char>, f: ToolFnRepr) -> bool {
    let entries = param_entries(json_inputs(f.inputs@))->Ok_0;
    let offset: int = if takes_state(f.inputs@) { 1 } else { 0 };
    &&& p.declaration.name == f.name
    &&& p.declaration.description@ == description
    &&& p.declaration.parameters is Some
    &&& is_parameter_schema(p.declaration.parameters->0, entries)
    &&& p.state_type == state_type_of(f.inputs@)
    &&& p.params@.len() == entries.len()
    &&& forall|i: int|
        0 <= i < entries.len() ==> {
            &&& (#[trigger] p.params@[i]).name@ == entries[i].0
            &&& p.params@[i].optional == entries[i].2
            &&& p.params@[i].input_index == i + offset
        }
    &&& p.result_form == return_kind(f.output)
}

/// The name of a parameter whose pattern is a plain identifier.
pub open spec fn arg_name(a: FnArgRepr) -> Option<Seq<char>> {
    match a {
        FnArgRepr::Typed(t) => match t.ident {
            Some(n) => Some(n@),
            None => None,
        },
        FnArgRepr::Receiver => None,
    }
}

/// Whether no two parameters are named alike, as Rust demands of a function.
pub open spec fn distinct_parameter_names(inputs: Seq<FnArgRepr>) -> bool {
    forall|i: int, j: int|
        0 <= i < j < inputs.len() && arg_name(#[trigger] inputs[i]) is Some ==> arg_name(inputs[i])
            != arg_name(#[trigger] inputs[j])
}

/// The entries of the parameters name them in order.
proof fn lemma_param_entries_names(args: Seq<FnArgRepr>)
    requires
        param_entries(args) is Ok,
    ensures
        param_entries(args)->Ok_0.len() == args.len(),
        forall|k: int|
            0 <= k < args.len() ==> Some((#[trigger] param_entries(args)->Ok_0[k]).0) == arg_name(
                args[k],
            ),
    decreases args.len(),
{
    if args.len() > 0 {
        lemma_param_entries_names(args.drop_last());
        let before = param_entries(args.drop_last())->Ok_0;
        let entries = param_entries(args)->Ok_0;
        assert forall|k: int| 0 <= k < args.len() implies Some((#[trigger] entries[k]).0)
            == arg_name(args[k]) by {
            if k < args.len() - 1 {
                assert(entries[k] == before[k]);
                assert(args.drop_last()[k] == args[k]);
            }
        }
    }
}

/// When the function names its parameters distinctly, the parameter object of
/// its declaration names its entries distinctly, as the map it stands for must.
proof fn lemma_plan_names_distinct(p: ToolPlan, description: Seq<char>, f: ToolFnRepr)
    requires
        plan_error(Ok(description), f) is None,
        is_plan_of(p, description, f),
        distinct_parameter_names(f.inputs@),
    ensures
        p.declaration.parameters->0.properties_named_distinctly(),
{
    let args = json_inputs(f.inputs@);
    lemma_param_entries_names(args);
    let entries = param_entries(args)->Ok_0;
    let s = p.declaration.parameters->0;
    if entries.len() > 0 {
        let ps = s.properties->0@;
        assert forall|i: int, j: int| 0 <= i < j < ps.len() implies ps[i].0@ != ps[j].0@ by {
            assert(ps[i].0@ == entries[i].0);
            assert(ps[j].0@ == entries[j].0);
            assert(Some(entries[i].0) == arg_name(args[i]));
            assert(Some(entries[j].0) == arg_name(args[j]));
            if takes_state(f.inputs@) {
                assert(args[i] == f.inputs@[i + 1]);
                assert(args[j] == f.inputs@[j + 1]);
            }
        }
    }
}

/// Once a prefix of the parameters holds one without an entry, every longer
/// prefix reports the same complaint.
proof fn lemma_param_error_persists(args: Seq<FnArgRepr>, k: int)
    requires
        0 <= k <= args.len(),
        param_entries(args.take(k)) is Err,
    ensures
        param_entries(args) == param_entries(args.take(k)),
    decreases args.len() - k,
{
    if k < args.len() {
        assert(args.take(k + 1).drop_last() =~= args.take(k));
        lemma_param_error_persists(args, k + 1);
    } else {
        assert(args.take(k) =~= args);
    }
}

/// Moves the state type `S` out of a first parameter `Arc<S>`.
fn take_state_type(first: FnArgRepr) -> (r: Option<TypeRepr>)
    requires
        takes_state(seq![first]),
    ensures
        r == state_type_of(seq![first]),
{
    match first {
        FnArgRepr::Typed(a) => match a.ty {
            TypeRepr::Path(p) => {
                let mut segments = p.segments;
                let ghost old_segments = segments@;
                let last = segments.pop().unwrap();
                assert(last == old_segments.last());
                match last.arguments {
                    PathArgumentsRepr::AngleBracketed(args) => {
                        let mut args = args;
                        if args.len() == 0 {
                            return None;
                        }
                        match args.remove(0) {
                            GenericArgumentRepr::Type(t) => Some(t),
                            GenericArgumentRepr::Other => None,
                        }
                    },
                    _ => None,
                }
            },
            TypeRepr::Other => None,
        },
        FnArgRepr::Receiver => None,
    }
}

/// Plans the expansion of the `tool_function` attribute on a function: the
/// declaration offered to the model, the state type, the parameters read from a
/// call's arguments and the form of the result; or the complaint that stops it.
///
/// `description` is the attribute's argument when it is a string literal, and
/// otherwise the complaint about it.
pub fn tool_function(description: Result<String, String>, func: ToolFnRepr) -> (r: Result<
    ToolPlan,
    String,
>)
    ensures
        match (r, plan_error(text_result_view(description), func)) {
            (Err(m), Some(e)) => m@ == e,
            (Ok(p), None) => is_plan_of(p, description->Ok_0@, func),
            _ => false,
        },
        distinct_parameter_names(func.inputs@) ==> (r matches Ok(p) ==> p.declaration.parameters->0.properties_named_distinctly()),
{
    let ghost f = func;
    let ghost given_description = description;
    let ToolFnRepr { name, is_async, inputs, output } = func;
    if !is_async {
        return Err(String::from_str("Tool function must be async"));
    }
    let description_text = match description {
        Ok(d) => d,
        Err(e) => {
            return Err(e);
        },
    };
    let mut inputs = inputs;
    let mut state_type: Option<TypeRepr> = None;
    let mut offset: usize = 0;
    let first_is_state = inputs.len() > 0 && match &inputs[0] {
        FnArgRepr::Typed(a) => is_arc_type(&a.ty),
        FnArgRepr::Receiver => false,
    };
    if first_is_state {
        let first = inputs.remove(0);
        proof {
            assert(seq![first][0] == f.inputs@[0]);
        }
        state_type = take_state_type(first);
        if state_type.is_none() {
            return Err(
                String::from_str(
                    "Arc state argument must have a generic type parameter, e.g., Arc<MyState>",
                ),
            );
        }
        offset = 1;
        assert(inputs@ =~= f.inputs@.drop_first());
    }
    assert(inputs@ == json_inputs(f.inputs@));
    let ghost args = inputs@;
    let ghost mut entries: Seq<(Seq<char>, Seq<char>, bool)> = Seq::empty();
    let mut properties: Vec<(String, Schema)> = Vec::new();
    let mut required: Vec<String> = Vec::new();
    let mut params: Vec<ToolParam> = Vec::new();
    let mut i: usize = 0;
    assert(args.take(0) =~= Seq::<FnArgRepr>::empty());
    assert(required@.map_values(|n: String| n@) =~= Seq::<Seq<char>>::empty());
    while i < inputs.len()
        invariant
            f == func,
            given_description == description,
            f.is_async,
            given_description is Ok,
            !(takes_state(f.inputs@) && state_type_of(f.inputs@) is None),
            i <= inputs.len(),
            inputs@ == args,
            args == json_inputs(f.inputs@),
            offset as int == (if takes_state(f.inputs@) { 1int } else { 0int }),
            inputs.len() + offset <= f.inputs@.len(),
            param_entries(args.take(i as int)) == Ok::<
                Seq<(Seq<char>, Seq<char>, bool)>,
                Seq<char>,
            >(entries),
            entries.len() == i,
            properties@.len() == i,
            params@.len() == i,
            forall|j: int|
                0 <= j < i ==> {
                    &&& (#[trigger] properties@[j]).0@ == entries[j].0
                    &&& is_plain_schema(properties@[j].1, entries[j].1)
                },
            forall|j: int|
                0 <= j < i ==> {
                    &&& (#[trigger] params@[j]).name@ == entries[j].0
                    &&& params@[j].optional == entries[j].2
                    &&& params@[j].input_index == j + offset
                },
            required@.map_values(|n: String| n@) == required_names(entries),
        decreases inputs.len() - i,
    {
        assert(args.take(i + 1).drop_last() =~= args.take(i as int));
        assert(args.take(i + 1).last() == args[i as int]);
        match &inputs[i] {
            FnArgRepr::Receiver => {
                proof {
                    lemma_param_error_persists(args, i + 1);
                }
                return Err(String::from_str("Unsupported argument type (expected typed ident)"));
            },
            FnArgRepr::Typed(a) => match &a.ident {
                None => {
                    proof {
                        lemma_param_error_persists(args, i + 1);
                    }
                    return Err(String::from_str("Parameter must be a simple ident"));
                },
                Some(param_name) => match rust_type_to_schema_info(&a.ty) {
                    None => {
                        proof {
                            lemma_param_error_persists(args, i + 1);
                        }
                        let mut message = String::from_str("Unsupported parameter type for schema: ");
                        message.append(a.ty_text.as_str());
                        return Err(message);
                    },
                    Some(info) => {
                        let (schema_type, optional) = info;
                        let ghost entry = (param_name@, schema_type@, optional);
                        properties.push(
                            (
                                param_name.clone(),
                                Schema {
                                    schema_type,
                                    properties: None,
                                    required: None,
                                    description: None,
                                },
                            ),
                        );
                        if !optional {
                            let ghost before = required@;
                            required.push(param_name.clone());
                            assert(required@.map_values(|n: String| n@) =~= before.map_values(
                                |n: String| n@,
                            ).push(param_name@));
                        }
                        params.push(
                            ToolParam { name: param_name.clone(), optional, input_index: i + offset },
                        );
                        proof {
                            let before = entries;
                            entries = entries.push(entry);
                            assert(entries.drop_last() =~= before);
                        }
                    },
                },
            },
        }
        i = i + 1;
    }
    assert(args.take(inputs.len() as int) =~= args);
    let parameters = Schema {
        schema_type: String::from_str("OBJECT"),
        properties: if properties.len() == 0 {
            None
        } else {
            Some(properties)
        },
        required: if required.len() == 0 {
            None
        } else {
            Some(required)
        },
        description: None,
    };
    let result_form = match &output {
        ReturnRepr::Default => ToolReturn::Unit,
        ReturnRepr::Type(t) => if get_result_types(t).is_some() {
            ToolReturn::Result
        } else {
            ToolReturn::Value
        },
    };
    let plan = ToolPlan {
        declaration: FunctionDeclaration {
            name,
            description: description_text,
            parameters: Some(parameters),
        },
        state_type,
        params,
        result_form,
    };
    proof {
        if distinct_parameter_names(f.inputs@) {
            lemma_plan_names_distinct(plan, description_text@, f);
        }
    }
    Ok(plan)
}

/// The entries of a call's JSON arguments, for a tool with `param_count`
/// parameters: the arguments must be an object; no arguments at all stand for
/// an empty object when the tool has no parameters.
pub fn tool_arguments(args: Option<serde_json::Value>, param_count: usize) -> (r: Result<
    serde_json::Map<String, serde_json::Value>,
    String,
>)
    ensures
        match args {
            Some(v) => if crate::json::json_is_object(v) {
                r matches Ok(m) && crate::json::json_map_entries(m)
                    == crate::json::json_object_entries_of(v)
            } else {
                r matches Err(m) && m@ == "Tool arguments must be a JSON object, got: "@
                    + crate::json::json_debug_text(v)
            },
            None => if param_count > 0 {
                r matches Err(m) && m@ == "Tool requires arguments, but none were provided."@
            } else {
                r matches Ok(m) && crate::json::json_map_entries(m) == crate::json::no_entries()
            },
        },
{
    match args {
        Some(v) => match json_object_entries(v) {
            Ok(map) => Ok(map),
            Err(other) => {
                let mut message = String::from_str("Tool arguments must be a JSON object, got: ");
                let text = json_debug(&other);
                message.append(text.as_str());
                Err(message)
            },
        },
        None => if param_count > 0 {
            Err(String::from_str("Tool requires arguments, but none were provided."))
        } else {
            Ok(json_empty_map())
        },
    }
}

/// The complaint about a required argument that the call left out.
pub fn missing_argument(name: &str) -> (r: String)
    ensures
        r@ == "Missing required argument '"@ + name@ + "'"@,
{
    let mut r = String::from_str("Missing required argument '");
    r.append(name);
    r.append("'");
    r
}

/// The complaint about an argument whose JSON does not fit its parameter's type.
pub fn argument_parse_failure(name: &str, optional: bool, detail: &str) -> (r: String)
    ensures
        r@ == (if optional {
            "Failed to parse optional argument '"@
        } else {
            "Failed to parse required argument '"@
        }) + name@ + "': "@ + detail@,
{
    let mut r = if optional {
        String::from_str("Failed to parse optional argument '")
    } else {
        String::from_str("Failed to parse required argument '")
    };
    r.append(name);
    r.append("': ");
    r.append(detail);
    r
}

/// The tool result of a function that returns nothing: `{}`.
pub fn unit_result() -> (r: serde_json::Value)
    ensures
        r == crate::json::json_object_value(Seq::empty()),
{
    let entries: Vec<(String, serde_json::Value)> = Vec::new();
    let r = json_object(entries);
    assert(crate::json::entries_view(entries@) =~= Seq::empty());
    r
}

/// The tool result of a returned value `v`: `{"result": v}`.
pub fn value_result(v: serde_json::Value) -> (r: serde_json::Value)
    ensures
        r == crate::json::json_object_value(seq![("result"@, v)]),
{
    let mut entries: Vec<(String, serde_json::Value)> = Vec::new();
    entries.push((String::from_str("result"), v));
    let r = json_object(entries);
    assert(crate::json::entries_view(entries@) =~= seq![("result"@, v)]);
    r
}

/// The complaint about a result that cannot be turned into JSON: for a function
/// returning `Result`, its success value; for another function, its result of
/// the type written `type_text`.
pub fn serialization_failure(type_text: Option<&str>, detail: &str) -> (r: String)
    ensures
        r@ == match type_text {
            None => "Failed to serialize success result: "@ + detail@,
            Some(t) => "Failed to serialize function result type "@ + t@ + ": "@ + detail@,
        },
{
    match type_text {
        None => {
            let mut r = String::from_str("Failed to serialize success result: ");
            r.append(detail);
            r
        },
        Some(t) => {
            let mut r = String::from_str("Failed to serialize function result type ");
            r.append(t);
            r.append(": ");
            r.append(detail);
            r
        },
    }
}

} // verus!
