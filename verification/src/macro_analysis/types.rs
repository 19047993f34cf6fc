//! Which types are object references, and which are results.

use super::desc::{GenericArgDesc, PathArgsDesc, PathSegmentDesc, TypeDesc, TypeKind, text_is};
use vstd::prelude::*;

verus! {

/// The last segment before the type name is a crate that exports
/// `ObjectRef`.
pub open spec fn is_crate_name(s: Seq<char>) -> bool {
    s == "rustyray"@ || s == "rustyray_core"@
}

/// A path that names `ObjectRef`: `ObjectRef` alone; or qualified by
/// exactly `rustyray`, `rustyray_core`, `crate` or `super`; or by any path
/// ending in `rustyray` or `rustyray_core`.
pub open spec fn path_names_object_ref(segs: Seq<PathSegmentDesc>) -> bool {
    if segs.len() == 1 {
        segs[0].ident@ == "ObjectRef"@
    } else if segs.len() >= 2 {
        &&& segs.last().ident@ == "ObjectRef"@
        &&& {
            ||| (segs.len() == 2 && (is_crate_name(segs[0].ident@) || segs[0].ident@ == "crate"@
                || segs[0].ident@ == "super"@))
            ||| is_crate_name(segs[segs.len() - 2].ident@)
        }
    } else {
        false
    }
}

/// The type is an object reference: a path naming `ObjectRef`, or a
/// reference to such a type. Type aliases are not seen through.
pub open spec fn is_object_ref(t: TypeDesc) -> bool
    decreases t,
{
    match t.kind {
        TypeKind::Path(segs) => path_names_object_ref(segs@),
        TypeKind::Reference(elem) => is_object_ref(*elem),
        TypeKind::Other => false,
    }
}

/// The type is `Result<..>`: a path whose last segment is `Result` with
/// `<...>` arguments.
pub open spec fn is_result(t: TypeDesc) -> bool {
    match t.kind {
        TypeKind::Path(segs) => segs@.len() > 0 && segs@.last().ident@ == "Result"@
            && segs@.last().arguments is AngleBracketed,
        _ => false,
    }
}

/// The first `<...>` argument of a `Result` type, if it is a type.
pub open spec fn result_ok_type(t: TypeDesc) -> Option<TypeDesc> {
    match t.kind {
        TypeKind::Path(segs) => if segs@.len() > 0 && segs@.last().ident@ == "Result"@ {
            match segs@.last().arguments {
                PathArgsDesc::AngleBracketed(args) => if args@.len() > 0 {
                    match args@[0] {
                        GenericArgDesc::Type(ok) => Some(ok),
                        GenericArgDesc::Other => None,
                    }
                } else {
                    None
                },
                _ => None,
            }
        } else {
            None
        },
        _ => None,
    }
}

fn is_crate_text(s: &String) -> (r: bool)
    ensures
        r == is_crate_name(s@),
{
    text_is(s, "rustyray") || text_is(s, "rustyray_core")
}

/// Whether a type is an object reference.
pub fn is_object_ref_type(ty: &TypeDesc) -> (r: bool)
    ensures
        r == is_object_ref(*ty),
    decreases ty,
{
    match &ty.kind {
        TypeKind::Path(segments) => {
            let n = segments.len();
            if n == 1 {
                return text_is(&segments[0].ident, "ObjectRef");
            }
            if n >= 2 && text_is(&segments[n - 1].ident, "ObjectRef") {
                if n == 2 {
                    let first = &segments[0].ident;
                    if is_crate_text(first) || text_is(first, "crate") || text_is(first, "super") {
                        return true;
                    }
                }
                return is_crate_text(&segments[n - 2].ident);
            }
            false
        },
        TypeKind::Reference(elem) => is_object_ref_type(elem),
        TypeKind::Other => false,
    }
}

/// Whether a type is `Result<..>`.
pub fn is_result_type(ty: &TypeDesc) -> (r: bool)
    ensures
        r == is_result(*ty),
{
    match &ty.kind {
        TypeKind::Path(segments) => {
            if segments.len() == 0 {
                return false;
            }
            let last = &segments[segments.len() - 1];
            if !text_is(&last.ident, "Result") {
                return false;
            }
            matches!(&last.arguments, PathArgsDesc::AngleBracketed(_))
        },
        _ => false,
    }
}

/// The `Ok` type of a `Result<..>` type.
pub fn extract_result_ok_type(ty: &TypeDesc) -> (r: Option<&TypeDesc>)
    ensures
        r is Some == result_ok_type(*ty) is Some,
        r matches Some(t) ==> *t == result_ok_type(*ty)->0,
{
    match &ty.kind {
        TypeKind::Path(segments) => {
            if segments.len() == 0 {
                return None;
            }
            let last = &segments[segments.len() - 1];
            if !text_is(&last.ident, "Result") {
                return None;
            }
            match &last.arguments {
                PathArgsDesc::AngleBracketed(args) => {
                    if args.len() == 0 {
                        return None;
                    }
                    match &args[0] {
                        GenericArgDesc::Type(ok) => Some(ok),
                        GenericArgDesc::Other => None,
                    }
                },
                _ => None,
            }
        },
        _ => None,
    }
}

/// Whether a function whose return type is `output` (none for `()`)
/// returns a result, as the `main` macro decides: then errors from
/// initializing and shutting down the runtime are returned with `?`,
/// otherwise they stop the program.
pub fn main_returns_result(output: &Option<TypeDesc>) -> (r: bool)
    ensures
        r == (*output matches Some(t) && is_result(t)),
{
    match output {
        None => false,
        Some(t) => is_result_type(t),
    }
}

/// Two paths name the same segments, whatever their arguments.
pub open spec fn same_idents(a: Seq<PathSegmentDesc>, b: Seq<PathSegmentDesc>) -> bool {
    &&& a.len() == b.len()
    &&& forall|i: int| 0 <= i < a.len() ==> #[trigger] a[i].ident@ == b[i].ident@
}

/// Whether a path type is an object reference depends only on the names of
/// its segments, never on their generic arguments: `ObjectRef<T>`,
/// `rustyray::ObjectRef<T>` and `ObjectRef` are alike.
pub proof fn law_object_ref_ignores_arguments(a: TypeDesc, b: TypeDesc)
    requires
        a.kind is Path,
        b.kind is Path,
        same_idents(a.kind->Path_0@, b.kind->Path_0@),
    ensures
        is_object_ref(a) == is_object_ref(b),
{
    let sa = a.kind->Path_0@;
    let sb = b.kind->Path_0@;
    if sa.len() >= 2 {
        assert(sa.last().ident@ == sb.last().ident@);
        assert(sa[sa.len() - 2].ident@ == sb[sb.len() - 2].ident@);
        assert(sa[0].ident@ == sb[0].ident@);
    } else if sa.len() == 1 {
        assert(sa[0].ident@ == sb[0].ident@);
    }
}

/// A single-segment path named `ObjectRef` is an object reference, whatever
/// its arguments (`ObjectRef<i32>` as much as `ObjectRef`); so is a
/// reference to an object reference, and a reference to anything else is
/// not.
pub proof fn law_object_ref_named(t: TypeDesc, origin: usize)
    ensures
        (t.kind matches TypeKind::Path(segs) && segs@.len() == 1 && segs@[0].ident@ == "ObjectRef"@)
            ==> is_object_ref(t),
        is_object_ref(TypeDesc { origin, kind: TypeKind::Reference(Box::new(t)) }) == is_object_ref(t),
{
}

/// Whether a path type is a result depends only on the names of its
/// segments, as long as its last segment has `<...>` arguments: the
/// arguments themselves never matter (`Result<()>` and `Result<i32>` are
/// both results).
pub proof fn law_result_ignores_arguments(a: TypeDesc, b: TypeDesc)
    requires
        a.kind is Path,
        b.kind is Path,
        same_idents(a.kind->Path_0@, b.kind->Path_0@),
        a.kind->Path_0@.len() > 0 ==> a.kind->Path_0@.last().arguments is AngleBracketed,
        b.kind->Path_0@.len() > 0 ==> b.kind->Path_0@.last().arguments is AngleBracketed,
    ensures
        is_result(a) == is_result(b),
{
    let sa = a.kind->Path_0@;
    let sb = b.kind->Path_0@;
    if sa.len() > 0 {
        assert(sa.last().ident@ == sb.last().ident@);
    }
}

/// A path whose last segment is `Result` with `<...>` arguments is a
/// result, whatever the arguments are, and a `main` returning it returns a
/// result; a path whose last segment is not named `Result` is not.
pub proof fn law_result_named(t: TypeDesc)
    ensures
        (t.kind matches TypeKind::Path(segs) && segs@.len() > 0 && segs@.last().ident@ == "Result"@
            && segs@.last().arguments is AngleBracketed) ==> is_result(t),
        (t.kind matches TypeKind::Path(segs) && segs@.len() > 0 && segs@.last().ident@ != "Result"@)
            ==> !is_result(t),
        !(t.kind is Path) ==> !is_result(t),
{
}

} // verus!
