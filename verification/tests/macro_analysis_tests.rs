use rustyray::macro_analysis::actor::{plan_actor, plan_actor_methods, ImplDesc, MethodDesc, MethodPlan};
use rustyray::macro_analysis::desc::{ErrorSpan, GenericArgDesc, ParamDesc, PathArgsDesc, PathSegmentDesc, TypeDesc, TypeKind};
use rustyray::macro_analysis::remote::{plan_remote, validate_remote_function, ArgCall, FnSigDesc, ReturnPlan};
use rustyray::macro_analysis::types::{extract_result_ok_type, is_object_ref_type, is_result_type, main_returns_result};

fn seg(ident: &str) -> PathSegmentDesc {
    PathSegmentDesc { ident: ident.to_string(), arguments: PathArgsDesc::Bare }
}

fn path(origin: usize, idents: &[&str]) -> TypeDesc {
    TypeDesc { origin, kind: TypeKind::Path(idents.iter().map(|i| seg(i)).collect()) }
}

fn generic(origin: usize, ident: &str, args: Vec<GenericArgDesc>) -> TypeDesc {
    TypeDesc {
        origin,
        kind: TypeKind::Path(vec![PathSegmentDesc {
            ident: ident.to_string(),
            arguments: PathArgsDesc::AngleBracketed(args),
        }]),
    }
}

fn reference(origin: usize, elem: TypeDesc) -> TypeDesc {
    TypeDesc { origin, kind: TypeKind::Reference(Box::new(elem)) }
}

fn param(name: &str, ty: TypeDesc) -> ParamDesc {
    ParamDesc { name: Some(name.to_string()), ty }
}

fn sig(name: &str, params: Vec<ParamDesc>, output: Option<TypeDesc>) -> FnSigDesc {
    FnSigDesc {
        name: name.to_string(),
        has_receiver: false,
        is_const: false,
        is_unsafe: false,
        is_async: true,
        lifetime_count: 0,
        generic_param_count: 0,
        params,
        output,
    }
}

#[test]
fn test_object_ref_patterns() {
    assert!(is_object_ref_type(&path(0, &["ObjectRef"])));
    assert!(is_object_ref_type(&path(0, &["rustyray", "ObjectRef"])));
    assert!(is_object_ref_type(&path(0, &["rustyray_core", "ObjectRef"])));
    assert!(is_object_ref_type(&path(0, &["crate", "ObjectRef"])));
    assert!(is_object_ref_type(&path(0, &["super", "ObjectRef"])));
    assert!(is_object_ref_type(&path(0, &["my", "rustyray", "ObjectRef"])));
    assert!(!is_object_ref_type(&path(0, &["other", "ObjectRef"])));
    assert!(!is_object_ref_type(&path(0, &["crate", "x", "ObjectRef"])));
    assert!(!is_object_ref_type(&path(0, &["i32"])));
    assert!(is_object_ref_type(&reference(1, path(0, &["ObjectRef"]))));
    assert!(!is_object_ref_type(&TypeDesc { origin: 0, kind: TypeKind::Other }));
}

#[test]
fn test_result_types() {
    let ok = path(5, &["i32"]);
    let res = generic(4, "Result", vec![GenericArgDesc::Type(ok), GenericArgDesc::Type(path(6, &["E"]))]);
    assert!(is_result_type(&res));
    assert_eq!(extract_result_ok_type(&res).map(|t| t.origin), Some(5));
    assert!(!is_result_type(&path(0, &["Result"])));
    assert!(extract_result_ok_type(&path(0, &["Result"])).is_none());
    assert!(main_returns_result(&Some(res)));
    assert!(!main_returns_result(&None));
    assert!(!main_returns_result(&Some(path(0, &["i32"]))));
}

#[test]
fn test_remote_validation_order() {
    let mut s = sig("f", vec![], None);
    s.is_const = true;
    s.is_unsafe = true;
    let e = validate_remote_function(&s).unwrap_err();
    assert_eq!(e.span, ErrorSpan::Constness);
    assert_eq!(e.message, "#[remote] functions cannot be const");
    s.has_receiver = true;
    let e = validate_remote_function(&s).unwrap_err();
    assert_eq!(e.message, "#[remote] cannot be used on methods with self parameter");
    let mut s = sig("f", vec![], None);
    s.lifetime_count = 1;
    s.generic_param_count = 1;
    let e = validate_remote_function(&s).unwrap_err();
    assert_eq!(e.message, "#[remote] functions cannot have lifetime parameters");
    s.lifetime_count = 0;
    let e = validate_remote_function(&s).unwrap_err();
    assert_eq!(e.message, "#[remote] functions cannot have generic parameters (yet)");
    assert!(validate_remote_function(&sig("ok", vec![], None)).is_ok());
}

#[test]
fn test_plan_remote() {
    let s = sig(
        "add",
        vec![param("x", path(1, &["i32"])), param("r", path(2, &["ObjectRef"]))],
        Some(path(3, &["i32"])),
    );
    let plan = plan_remote(&s, false, false).unwrap();
    assert_eq!(plan.module_name, "add_remote");
    assert_eq!(plan.arg_calls, vec![ArgCall::Value, ArgCall::Ref]);
    assert_eq!(plan.returns, ReturnPlan::Plain(3));
    assert!(!plan.emit_resources);

    let res = generic(4, "Result", vec![GenericArgDesc::Type(path(5, &["u8"]))]);
    let plan = plan_remote(&sig("g", vec![], Some(res)), true, false).unwrap();
    assert_eq!(plan.returns, ReturnPlan::Fallible(Some(5)));
    assert!(plan.emit_resources);

    let plan = plan_remote(&sig("h", vec![], None), false, false).unwrap();
    assert_eq!(plan.returns, ReturnPlan::Unit);

    let bad = sig("b", vec![param("x", path(1, &["i32"])), ParamDesc { name: None, ty: path(2, &["i32"]) }], None);
    let e = plan_remote(&bad, false, false).unwrap_err();
    assert_eq!(e.span, ErrorSpan::Param(1));
    assert_eq!(e.message, "Remote functions must use simple identifiers for parameters");
}

#[test]
fn test_plan_actor() {
    let names = plan_actor("Counter", 0).unwrap();
    assert_eq!(names.handle, "CounterHandle");
    assert_eq!(names.actor_id_const, "COUNTER_ACTOR_ID");
    assert_eq!(names.message_enum, "CounterMessage");
    assert_eq!(names.response_enum, "CounterResponse");
    let e = plan_actor("Generic", 1).unwrap_err();
    assert_eq!(e.message, "#[actor] does not support generic parameters yet");
}

fn method(name: &str, has_receiver: bool, output: Option<TypeDesc>, params: Vec<ParamDesc>) -> MethodDesc {
    MethodDesc { name: name.to_string(), has_receiver, is_async: true, params, output }
}

#[test]
fn test_plan_actor_methods() {
    let block = ImplDesc {
        is_trait_impl: false,
        self_type: path(0, &["crate", "Counter"]),
        methods: vec![
            method("new", false, Some(path(1, &["Self"])), vec![param("initial", path(2, &["i32"]))]),
            method("with_name", false, Some(path(3, &["Self"])), vec![]),
            method("increment", true, Some(path(4, &["i32"])), vec![]),
            method("add", true, None, vec![param("x", path(5, &["i32"])), ParamDesc { name: None, ty: path(6, &["i32"]) }]),
        ],
    };
    let plan = plan_actor_methods(&block).unwrap();
    assert_eq!(plan.struct_name, "Counter");
    assert_eq!(plan.handle, "CounterHandle");
    assert_eq!(plan.wrapper, "CounterActorWrapper");
    match &plan.methods[0] {
        MethodPlan::Constructor { remote_name, param_names } => {
            assert_eq!(remote_name, "remote");
            assert_eq!(param_names, &vec!["initial".to_string()]);
        }
        _ => panic!("expected a constructor"),
    }
    match &plan.methods[1] {
        MethodPlan::Constructor { remote_name, .. } => assert_eq!(remote_name, "remote_with_name"),
        _ => panic!("expected a constructor"),
    }
    match &plan.methods[2] {
        MethodPlan::Message { variant, .. } => assert_eq!(variant, "Increment"),
        _ => panic!("expected a message"),
    }
    match &plan.methods[3] {
        MethodPlan::Message { variant, param_names, is_async } => {
            assert_eq!(variant, "Add");
            assert_eq!(param_names, &vec!["x".to_string()]);
            assert!(*is_async);
        }
        _ => panic!("expected a message"),
    }
}

#[test]
fn test_actor_methods_errors() {
    let mut block = ImplDesc { is_trait_impl: true, self_type: path(0, &["C"]), methods: vec![] };
    assert_eq!(
        plan_actor_methods(&block).unwrap_err().message,
        "#[actor_methods] must be used on inherent impl blocks, not trait implementations"
    );
    block.is_trait_impl = false;
    block.self_type = TypeDesc { origin: 0, kind: TypeKind::Other };
    assert_eq!(plan_actor_methods(&block).unwrap_err().span, ErrorSpan::SelfType);
    block.self_type = path(0, &["C"]);
    block.methods = vec![
        method("ok", true, None, vec![]),
        method("static_fn", false, None, vec![]),
        method("new", true, Some(path(1, &["Self"])), vec![]),
    ];
    let e = plan_actor_methods(&block).unwrap_err();
    assert_eq!(e.span, ErrorSpan::Signature(1));
    assert_eq!(
        e.message,
        "Actor methods must have &self or &mut self parameter. Use constructor pattern (returns Self) for static methods."
    );
    block.methods.remove(1);
    let e = plan_actor_methods(&block).unwrap_err();
    assert_eq!(e.span, ErrorSpan::Signature(1));
    assert_eq!(e.message, "Constructor methods cannot have self parameter");
}

#[test]
fn test_actor_methods_errors_before_non_ascii_names() {
    // A trait impl is refused before any method name is looked at.
    let mut block = ImplDesc {
        is_trait_impl: true,
        self_type: path(0, &["C"]),
        methods: vec![method("ñame", true, None, vec![])],
    };
    assert_eq!(
        plan_actor_methods(&block).unwrap_err().message,
        "#[actor_methods] must be used on inherent impl blocks, not trait implementations"
    );
    // A refused method ends planning before a later non-ASCII message name.
    block.is_trait_impl = false;
    block.methods = vec![
        method("make", true, Some(path(1, &["Self"])), vec![]),
        method("ñame", true, None, vec![]),
    ];
    let e = plan_actor_methods(&block).unwrap_err();
    assert_eq!(e.span, ErrorSpan::Signature(0));
    assert_eq!(e.message, "Constructor methods cannot have self parameter");
    // A constructor may have any name.
    block.methods = vec![method("créer", false, Some(path(1, &["Self"])), vec![])];
    match &plan_actor_methods(&block).unwrap().methods[0] {
        MethodPlan::Constructor { remote_name, .. } => assert_eq!(remote_name, "remote_créer"),
        _ => panic!("expected a constructor"),
    }
}
