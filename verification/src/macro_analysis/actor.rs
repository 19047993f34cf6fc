//! The `actor` and `actor_methods` macros: the names of the generated
//! handle, message and response types, which methods become remote
//! constructors and which become messages, and which impl blocks and
//! methods are refused.

use super::desc::{macro_error, text_is, ErrorSpan, MacroError, ParamDesc, PathArgsDesc, TypeDesc, TypeKind};
use vstd::prelude::*;
use vstd::utf8::is_ascii_chars;

verus! {

/// The upper case of a text, by Unicode's rules.
pub uninterp spec fn uppercase_text(s: Seq<char>) -> Seq<char>;

/// The upper case of a character, by Unicode's rules.
pub uninterp spec fn uppercase_char(c: char) -> Seq<char>;

/// The ASCII upper case of a character: `a`..`z` become `A`..`Z`, other
/// characters stay.
pub open spec fn ascii_upper_char(c: char) -> char {
    if 97 <= c as int <= 122 {
        (c as int - 32) as char
    } else {
        c
    }
}

/// The ASCII upper case of a text.
pub open spec fn ascii_upper(s: Seq<char>) -> Seq<char> {
    s.map_values(|c: char| ascii_upper_char(c))
}

/// Upper-cases a text.
///
/// Calls `str::to_uppercase`, which maps each character to its Unicode
/// upper case; on ASCII text that maps `a`..`z` to `A`..`Z` and keeps the
/// rest.
#[verifier::external_body]
fn text_to_uppercase(s: &str) -> (r: String)
    ensures
        r@ == uppercase_text(s@),
        is_ascii_chars(s@) ==> r@ == ascii_upper(s@),
{
    s.to_uppercase()
}

/// Upper-cases a character.
///
/// Calls `char::to_uppercase` and collects the characters it yields; an
/// ASCII character yields its ASCII upper case alone.
#[verifier::external_body]
fn char_to_uppercase(c: char) -> (r: String)
    ensures
        r@ == uppercase_char(c),
        (c as u32) < 128 ==> r@ == seq![ascii_upper_char(c)],
{
    c.to_uppercase().collect()
}

/// The names generated for an actor struct.
#[derive(Debug)]
pub struct ActorNames {
    /// The typed handle: the struct's name followed by `Handle`.
    pub handle: String,
    /// The constant holding the actor's name: the upper-cased name followed
    /// by `_ACTOR_ID`.
    pub actor_id_const: String,
    /// The message enum: the name followed by `Message`.
    pub message_enum: String,
    /// The response enum: the name followed by `Response`.
    pub response_enum: String,
}

fn suffixed(name: &str, suffix: &str) -> (r: String)
    ensures
        r@ == name@ + suffix@,
{
    let mut s = name.to_owned();
    s.append(suffix);
    s
}

/// Plans the `actor` macro for a struct named `struct_name` with
/// `generic_count` generic parameters; generic actors are refused.
pub fn plan_actor(struct_name: &str, generic_count: usize) -> (r: Result<ActorNames, MacroError>)
    ensures
        generic_count > 0 ==> (r matches Err(e) && e.span == ErrorSpan::Generics
            && e.message@ == "#[actor] does not support generic parameters yet"@),
        generic_count == 0 ==> (r matches Ok(n)
            && n.handle@ == struct_name@ + "Handle"@
            && n.actor_id_const@ == uppercase_text(struct_name@) + "_ACTOR_ID"@
            && (is_ascii_chars(struct_name@) ==> n.actor_id_const@ == ascii_upper(struct_name@) + "_ACTOR_ID"@)
            && n.message_enum@ == struct_name@ + "Message"@
            && n.response_enum@ == struct_name@ + "Response"@),
{
    if generic_count > 0 {
        return Err(macro_error(ErrorSpan::Generics, "#[actor] does not support generic parameters yet"));
    }
    let mut actor_id_const = text_to_uppercase(struct_name);
    actor_id_const.append("_ACTOR_ID");
    Ok(ActorNames {
        handle: suffixed(struct_name, "Handle"),
        actor_id_const,
        message_enum: suffixed(struct_name, "Message"),
        response_enum: suffixed(struct_name, "Response"),
    })
}

/// A method of an impl block, as `actor_methods` looks at it.
pub struct MethodDesc {
    pub name: String,
    pub has_receiver: bool,
    pub is_async: bool,
    /// The typed parameters, in order.
    pub params: Vec<ParamDesc>,
    /// The return type; none for `()`.
    pub output: Option<TypeDesc>,
}

/// An impl block, as `actor_methods` looks at it.
pub struct ImplDesc {
    pub is_trait_impl: bool,
    pub self_type: TypeDesc,
    /// The methods, in order.
    pub methods: Vec<MethodDesc>,
}

/// What the macro generates for one method.
#[derive(Debug)]
pub enum MethodPlan {
    /// A constructor (returns `Self`): an associated function that creates
    /// the actor remotely, named `remote` for `new` and `remote_<name>`
    /// otherwise.
    Constructor { remote_name: String, param_names: Vec<String> },
    /// A method: a message variant named by capitalizing the method's
    /// name, a handle method and a handler arm.
    Message { variant: String, param_names: Vec<String>, is_async: bool },
}

/// The plan of the `actor_methods` macro.
#[derive(Debug)]
pub struct ActorMethodsPlan {
    pub struct_name: String,
    pub handle: String,
    pub message_enum: String,
    pub response_enum: String,
    pub wrapper: String,
    /// One plan per method, in order.
    pub methods: Vec<MethodPlan>,
}

/// The method returns `Self` (the path `Self`, with no arguments).
pub open spec fn returns_self(m: MethodDesc) -> bool {
    m.output matches Some(t) && t.kind matches TypeKind::Path(segs) && segs@.len() == 1
        && segs@[0].ident@ == "Self"@ && segs@[0].arguments is Bare
}

/// Why a method is refused, if it is.
pub open spec fn method_rejection(m: MethodDesc) -> Option<Seq<char>> {
    if returns_self(m) {
        if m.has_receiver {
            Some("Constructor methods cannot have self parameter"@)
        } else {
            None
        }
    } else if !m.has_receiver {
        Some("Actor methods must have &self or &mut self parameter. Use constructor pattern (returns Self) for static methods."@)
    } else {
        None
    }
}

/// The names of the parameters whose patterns are plain identifiers, in
/// order.
pub open spec fn named_params(params: Seq<ParamDesc>) -> Seq<Seq<char>>
    decreases params.len(),
{
    if params.len() == 0 {
        Seq::empty()
    } else {
        let rest = named_params(params.drop_last());
        match params.last().name {
            Some(n) => rest.push(n@),
            None => rest,
        }
    }
}

/// The texts of some strings.
pub open spec fn texts(v: Seq<String>) -> Seq<Seq<char>> {
    v.map_values(|s: String| s@)
}

/// The message variant for a method name: the name with its first
/// character upper-cased.
pub open spec fn variant_name(name: Seq<char>) -> Seq<char> {
    seq![ascii_upper_char(name[0])] + name.subrange(1, name.len() as int)
}

/// The remote constructor's name for a constructor named `name`.
pub open spec fn remote_name(name: Seq<char>) -> Seq<char> {
    if name == "new"@ {
        "remote"@
    } else {
        "remote_"@ + name
    }
}

/// `p` is what the macro generates for method `m`.
pub open spec fn method_planned(m: MethodDesc, p: MethodPlan) -> bool {
    if returns_self(m) {
        p matches MethodPlan::Constructor { remote_name: rn, param_names: ps }
            && rn@ == remote_name(m.name@) && texts(ps@) == named_params(m.params@)
    } else {
        p matches MethodPlan::Message { variant: v, param_names: ps, is_async: a }
            && v@ == variant_name(m.name@) && texts(ps@) == named_params(m.params@) && a == m.is_async
    }
}

/// Method `i` is a message method that planning reaches: no earlier method
/// is refused, and it has a receiver and does not return `Self`.
pub open spec fn reached_message(ms: Seq<MethodDesc>, i: int) -> bool {
    &&& 0 <= i < ms.len()
    &&& forall|j: int| 0 <= j < i ==> method_rejection(#[trigger] ms[j]) is None
    &&& !returns_self(ms[i])
    &&& ms[i].has_receiver
}

/// In an inherent impl of a named type, every message method that planning
/// reaches has a name that starts with an ASCII character (the macro cuts
/// the name after its first byte).
pub open spec fn reached_message_names_ascii(block: ImplDesc) -> bool {
    !block.is_trait_impl && self_type_name(block.self_type) is Some ==>
        forall|i: int| #[trigger] reached_message(block.methods@, i) ==>
            block.methods@[i].name@.len() > 0 && (block.methods@[i].name@[0] as u32) < 128
}

/// The first refused method, if any.
pub open spec fn first_refused(ms: Seq<MethodDesc>) -> Option<int> {
    if exists|i: int| 0 <= i < ms.len() && method_rejection(#[trigger] ms[i]) is Some {
        Some(choose|i: int| 0 <= i < ms.len() && method_rejection(#[trigger] ms[i]) is Some
            && forall|j: int| 0 <= j < i ==> method_rejection(#[trigger] ms[j]) is None)
    } else {
        None
    }
}

fn simple_param_names(params: &Vec<ParamDesc>) -> (r: Vec<String>)
    ensures
        texts(r@) == named_params(params@),
{
    let mut names: Vec<String> = Vec::new();
    let mut i: usize = 0;
    while i < params.len()
        invariant
            i <= params@.len(),
            texts(names@) == named_params(params@.subrange(0, i as int)),
        decreases params@.len() - i,
    {
        proof {
            assert(params@.subrange(0, i as int + 1).drop_last() =~= params@.subrange(0, i as int));
        }
        match &params[i].name {
            Some(n) => {
                let ghost before = names@;
                names.push(n.clone());
                assert(texts(names@) =~= texts(before).push(n@));
            },
            None => {},
        }
        i = i + 1;
    }
    assert(params@.subrange(0, params@.len() as int) =~= params@);
    names
}

fn is_self_type(output: &Option<TypeDesc>) -> (r: bool)
    ensures
        r == (*output matches Some(t) && t.kind matches TypeKind::Path(segs) && segs@.len() == 1
            && segs@[0].ident@ == "Self"@ && segs@[0].arguments is Bare),
{
    match output {
        Some(t) => match &t.kind {
            TypeKind::Path(segs) => segs.len() == 1 && text_is(&segs[0].ident, "Self")
                && matches!(&segs[0].arguments, PathArgsDesc::Bare),
            _ => false,
        },
        None => false,
    }
}

fn capitalize(name: &String) -> (r: String)
    requires
        name@.len() > 0,
        (name@[0] as u32) < 128,
    ensures
        r@ == variant_name(name@),
{
    let s = name.as_str();
    let first = s.get_char(0);
    let mut out = char_to_uppercase(first);
    let rest = s.substring_char(1, s.unicode_len());
    out.append(rest);
    out
}

fn plan_method(m: &MethodDesc) -> (r: Result<MethodPlan, String>)
    requires
        !returns_self(*m) && m.has_receiver ==> m.name@.len() > 0 && (m.name@[0] as u32) < 128,
    ensures
        method_rejection(*m) matches Some(msg) ==> (r matches Err(e) && e@ == msg),
        method_rejection(*m) is None ==> (r matches Ok(p) && method_planned(*m, p)),
{
    if is_self_type(&m.output) {
        if m.has_receiver {
            return Err("Constructor methods cannot have self parameter".to_owned());
        }
        let remote_name = if text_is(&m.name, "new") {
            "remote".to_owned()
        } else {
            let mut n = "remote_".to_owned();
            n.append(m.name.as_str());
            n
        };
        return Ok(MethodPlan::Constructor { remote_name, param_names: simple_param_names(&m.params) });
    }
    if !m.has_receiver {
        return Err(
            "Actor methods must have &self or &mut self parameter. Use constructor pattern (returns Self) for static methods.".to_owned(),
        );
    }
    Ok(MethodPlan::Message {
        variant: capitalize(&m.name),
        param_names: simple_param_names(&m.params),
        is_async: m.is_async,
    })
}

/// The struct's name from the impl's self type: the last segment of a
/// path type.
pub open spec fn self_type_name(t: TypeDesc) -> Option<Seq<char>> {
    match t.kind {
        TypeKind::Path(segs) => if segs@.len() > 0 { Some(segs@.last().ident@) } else { None },
        _ => None,
    }
}

/// Plans the `actor_methods` macro for an impl block. Trait impls, self
/// types that are not paths, and refused methods (the first one) are
/// reported as errors.
pub fn plan_actor_methods(block: &ImplDesc) -> (r: Result<ActorMethodsPlan, MacroError>)
    requires
        reached_message_names_ascii(*block),
    ensures
        block.is_trait_impl ==> (r matches Err(e) && e.span == ErrorSpan::Item
            && e.message@ == "#[actor_methods] must be used on inherent impl blocks, not trait implementations"@),
        !block.is_trait_impl && !(block.self_type.kind is Path) ==> (r matches Err(e) && e.span == ErrorSpan::SelfType
            && e.message@ == "#[actor_methods] can only be used on simple type paths"@),
        !block.is_trait_impl && block.self_type.kind is Path && self_type_name(block.self_type) is None ==>
            (r matches Err(e) && e.span == ErrorSpan::SelfType && e.message@ == "Could not determine struct name"@),
        !block.is_trait_impl ==> (self_type_name(block.self_type) matches Some(name) ==> (match first_refused(block.methods@) {
            Some(i) => r matches Err(e) && e.span == ErrorSpan::Signature(i as usize)
                && Some(e.message@) == method_rejection(block.methods@[i]),
            None => r matches Ok(p)
                && p.struct_name@ == name
                && p.handle@ == name + "Handle"@
                && p.message_enum@ == name + "Message"@
                && p.response_enum@ == name + "Response"@
                && p.wrapper@ == name + "ActorWrapper"@
                && p.methods@.len() == block.methods@.len()
                && forall|i: int| 0 <= i < block.methods@.len() ==> method_planned(#[trigger] block.methods@[i], p.methods@[i]),
        })),
{
    if block.is_trait_impl {
        return Err(macro_error(ErrorSpan::Item,
            "#[actor_methods] must be used on inherent impl blocks, not trait implementations"));
    }
    let segments = match &block.self_type.kind {
        TypeKind::Path(segs) => segs,
        _ => {
            return Err(macro_error(ErrorSpan::SelfType, "#[actor_methods] can only be used on simple type paths"));
        },
    };
    if segments.len() == 0 {
        return Err(macro_error(ErrorSpan::SelfType, "Could not determine struct name"));
    }
    let struct_name = segments[segments.len() - 1].ident.clone();
    let mut methods: Vec<MethodPlan> = Vec::new();
    let mut i: usize = 0;
    while i < block.methods.len()
        invariant
            reached_message_names_ascii(*block),
            !block.is_trait_impl,
            block.self_type.kind is Path,
            self_type_name(block.self_type) == Some(struct_name@),
            i <= block.methods@.len(),
            methods@.len() == i,
            forall|j: int| 0 <= j < i ==> method_rejection(#[trigger] block.methods@[j]) is None,
            forall|j: int| 0 <= j < i ==> method_planned(#[trigger] block.methods@[j], methods@[j]),
        decreases block.methods@.len() - i,
    {
        let m = &block.methods[i];
        proof {
            if !returns_self(block.methods@[i as int]) && block.methods@[i as int].has_receiver {
                assert(reached_message(block.methods@, i as int));
            }
        }
        match plan_method(m) {
            Ok(p) => {
                methods.push(p);
            },
            Err(message) => {
                proof {
                    assert(first_refused(block.methods@) == Some(i as int)) by {
                        assert(method_rejection(block.methods@[i as int]) is Some);
                        let k = choose|k: int| 0 <= k < block.methods@.len()
                            && method_rejection(#[trigger] block.methods@[k]) is Some
                            && forall|j: int| 0 <= j < k ==> method_rejection(#[trigger] block.methods@[j]) is None;
                        if k < i {
                            assert(method_rejection(block.methods@[k]) is None);
                        }
                        if k > i {
                            assert(method_rejection(block.methods@[i as int]) is None);
                        }
                    }
                }
                return Err(MacroError { span: ErrorSpan::Signature(i), message });
            },
        }
        i = i + 1;
    }
    Ok(ActorMethodsPlan {
        handle: suffixed(struct_name.as_str(), "Handle"),
        message_enum: suffixed(struct_name.as_str(), "Message"),
        response_enum: suffixed(struct_name.as_str(), "Response"),
        wrapper: suffixed(struct_name.as_str(), "ActorWrapper"),
        struct_name,
        methods,
    })
}

/// How a method is planned: as a remote constructor exactly when it returns
/// `Self`, and otherwise as a message that keeps the method's own
/// asyncness (a sync method is called without `.await`, an async one with
/// it) and whose variant capitalizes the method's name.
pub proof fn law_method_plan_shape(m: MethodDesc, p: MethodPlan)
    requires
        method_planned(m, p),
    ensures
        p is Constructor <==> returns_self(m),
        p matches MethodPlan::Message { is_async, .. } ==> is_async == m.is_async,
        p matches MethodPlan::Message { variant, .. } ==> (m.name@.len() > 0 ==> variant@.len() == m.name@.len()
            && variant@.subrange(1, variant@.len() as int) == m.name@.subrange(1, m.name@.len() as int)),
{
    if let MethodPlan::Message { variant, .. } = p {
        if m.name@.len() > 0 {
            assert(variant@.subrange(1, variant@.len() as int) =~= m.name@.subrange(1, m.name@.len() as int));
        }
    }
}

} // verus!
