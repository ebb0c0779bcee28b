use patchbukkit::codegen::cases::{to_pascal_case, to_snake_case};
use patchbukkit::codegen::java_deps::{
    expected_jar_names, jar_file_name, keeps_jasset, maven_coordinate, native_library_name,
    MavenDependency,
};
use patchbukkit::codegen::protobufs::{ffi_init_source, FfiServiceGenerator, ServiceMethod};

fn generator() -> FfiServiceGenerator {
    FfiServiceGenerator::new(
        "crate::java::native_callbacks".to_string(),
        "crate::proto".to_string(),
    )
}

#[test]
fn snake_case_inserts_underscores_before_capitals() {
    assert_eq!(to_snake_case("NativeBridge"), "native_bridge");
    assert_eq!(to_snake_case("HTTPServer"), "h_t_t_p_server");
    assert_eq!(to_snake_case("already_snake"), "already_snake");
    assert_eq!(to_snake_case(""), "");
    assert_eq!(to_snake_case("X"), "x");
}

#[test]
fn pascal_case_lowers_all_capital_identifiers() {
    assert_eq!(to_pascal_case("UUID"), "Uuid");
    assert_eq!(to_pascal_case("ABC1"), "Abc1");
    assert_eq!(to_pascal_case("Uuid"), "Uuid");
    assert_eq!(to_pascal_case("getBlock"), "getBlock");
    assert_eq!(to_pascal_case(""), "");
    assert_eq!(to_pascal_case("42"), "42");
}

#[test]
fn module_path_of_a_package() {
    let g = generator();
    assert_eq!(g.package_to_module_path("patchbukkit.bridge"), "patchbukkit::bridge");
    assert_eq!(g.package_to_module_path("My.SubPackage"), "my::sub_package");
    assert_eq!(g.package_to_module_path("single"), "single");
    assert_eq!(g.package_to_module_path(""), "");
}

#[test]
fn java_class_of_a_service() {
    let g = generator();
    assert_eq!(
        g.proto_package_to_java_class("patchbukkit.bridge", "NativeBridge"),
        "patchbukkit.bridge.NativeBridgeFfi"
    );
}

#[test]
fn rust_type_of_a_message() {
    let g = generator();
    assert_eq!(
        g.proto_type_to_rust(".patchbukkit.common.Uuid"),
        "crate::proto::patchbukkit::common::Uuid"
    );
    assert_eq!(
        g.proto_type_to_rust("patchbukkit.events.CallEventRequest"),
        "crate::proto::patchbukkit::events::CallEventRequest"
    );
    assert_eq!(g.proto_type_to_rust("..a.b.UUID"), "crate::proto::a::b::Uuid");
    assert_eq!(g.proto_type_to_rust(".google.protobuf.Empty"), "::prost_types::Empty");
    assert_eq!(g.proto_type_to_rust("Lonely"), "crate::proto::::Lonely");
}

#[test]
fn generate_names_every_method_and_records_the_service() {
    let mut g = generator();
    let methods = vec![
        ServiceMethod {
            name: "get_block".to_string(),
            input_proto_type: ".patchbukkit.block.GetBlockRequest".to_string(),
        },
        ServiceMethod {
            name: "get_abilities".to_string(),
            input_proto_type: ".patchbukkit.common.Uuid".to_string(),
        },
    ];
    let mut buf = "// head\n".to_string();
    let bindings = g.generate("patchbukkit.bridge", "NativeBridge", &methods, &mut buf);
    assert_eq!(bindings.len(), 2);
    assert!(buf.starts_with("// head\n/// FFI function for ffi_native_bridge_get_block\n"));
    let first = buf.find("pub unsafe extern \"C\" fn ffi_native_bridge_get_block(").unwrap();
    let second = buf.find("pub unsafe extern \"C\" fn ffi_native_bridge_get_abilities(").unwrap();
    assert!(first < second);
    assert!(buf.contains(
        "let Ok(request) = crate::proto::patchbukkit::block::GetBlockRequest::decode(input_slice) else {\n        unsafe { *output_len = 0 };\n        return std::ptr::null_mut();\n    };"
    ));
    assert!(buf.contains(
        "let Some(response) = crate::java::native_callbacks::ffi_native_bridge_get_abilities_impl(request) else {"
    ));
    assert!(buf.ends_with("    std::mem::forget(encoded);\n    ptr\n}\n"));
    assert_eq!(bindings[0].fn_name, "ffi_native_bridge_get_block");
    assert_eq!(bindings[0].input_type, "crate::proto::patchbukkit::block::GetBlockRequest");
    assert_eq!(
        bindings[0].impl_path,
        "crate::java::native_callbacks::ffi_native_bridge_get_block_impl"
    );
    assert_eq!(bindings[1].fn_name, "ffi_native_bridge_get_abilities");
    let state = g.get_state();
    assert_eq!(state.len(), 1);
    assert_eq!(state[0].java_class, "patchbukkit.bridge.NativeBridgeFfi");
    assert_eq!(state[0].rust_module, "patchbukkit::bridge");
    assert_eq!(state[0].methods.len(), 2);
    assert_eq!(state[0].methods[1].fn_name, "ffi_native_bridge_get_abilities");
}

#[test]
fn a_service_without_methods_adds_no_source() {
    let mut g = generator();
    let mut buf = "unchanged".to_string();
    let bindings = g.generate("p", "Empty", &vec![], &mut buf);
    assert!(bindings.is_empty());
    assert_eq!(buf, "unchanged");
    assert_eq!(g.get_state().len(), 1);
    assert_eq!(g.get_state()[0].java_class, "p.EmptyFfi");
}

#[test]
fn new_generator_has_no_services() {
    let g = generator();
    assert!(g.get_state().is_empty());
    assert_eq!(g.impl_module, "crate::java::native_callbacks");
    assert_eq!(g.proto_module, "crate::proto");
}

#[test]
fn jar_and_maven_names() {
    let dep = MavenDependency {
        group: "com.google.guava".to_string(),
        artifact: "guava".to_string(),
        version: "33.3.1-jre".to_string(),
    };
    assert_eq!(jar_file_name("guava", "33.3.1-jre"), "guava-33.3.1-jre.jar");
    assert_eq!(maven_coordinate(&dep), "com.google.guava:guava:33.3.1-jre");
    let names = expected_jar_names(&vec![dep]);
    assert_eq!(names, vec!["guava-33.3.1-jre.jar".to_string()]);
}

#[test]
fn stale_jassets_are_those_not_expected() {
    let expected = vec!["guava-33.3.1-jre.jar".to_string()];
    assert!(keeps_jasset("j4rs-0.25.3-jar-with-dependencies.jar", &expected));
    assert!(keeps_jasset("guava-33.3.1-jre.jar", &expected));
    assert!(!keeps_jasset("guava-32.0.0-jre.jar", &expected));
    assert!(!keeps_jasset("j4r-1.jar", &expected));
}

#[test]
fn native_library_name_keeps_part_before_dash() {
    assert_eq!(native_library_name("libj4rs-5f2a9c.so", "so"), "libj4rs.so");
    assert_eq!(native_library_name("j4rs.dll", "dll"), "j4rs.dll.dll");
}

#[test]
fn snake_case_length_and_idempotence() {
    let once = to_snake_case("NativeBridgeV2");
    assert_eq!(once, "native_bridge_v2");
    assert_eq!(once.chars().count(), "NativeBridgeV2".chars().count() + 2);
    assert_eq!(to_snake_case(&once), once);
    let twice = to_snake_case(&to_snake_case("HTTPServer"));
    assert_eq!(twice, to_snake_case("HTTPServer"));
    assert!(!once.chars().any(|c| c.is_ascii_uppercase()));
}

#[test]
fn ffi_init_registers_every_service_in_order() {
    let mut g = generator();
    let mut buf = String::new();
    let methods = vec![
        ServiceMethod { name: "a".to_string(), input_proto_type: ".p.q.A".to_string() },
        ServiceMethod { name: "b".to_string(), input_proto_type: ".p.q.B".to_string() },
    ];
    g.generate("patchbukkit.bridge", "NativeBridge", &methods, &mut buf);
    g.generate("patchbukkit.other", "Other", &vec![], &mut buf);
    let text = ffi_init_source(&g.get_state());
    assert!(text.starts_with("/// Frees bytes allocated by FFI functions\n"));
    assert!(text.contains("pub unsafe extern \"C\" fn ffi_free_bytes(ptr: *mut u8, len: usize) {"));
    let first = text.find("    // Initialize patchbukkit.bridge.NativeBridgeFfi\n").unwrap();
    let second = text.find("    // Initialize patchbukkit.other.OtherFfi\n").unwrap();
    assert!(first < second);
    let a = text
        .find("            InvocationArg::try_from(crate::proto::patchbukkit::bridge::ffi_native_bridge_a as *const () as i64)?.into_primitive()?,\n")
        .unwrap();
    let b = text
        .find("            InvocationArg::try_from(crate::proto::patchbukkit::bridge::ffi_native_bridge_b as *const () as i64)?.into_primitive()?,\n")
        .unwrap();
    assert!(first < a && a < b && b < second);
    assert_eq!(text.matches("\"initFree\"").count(), 2);
    assert!(text.ends_with("\n    Ok(())\n}\n"));
}

#[test]
fn ffi_init_without_services() {
    let text = ffi_init_source(&vec![]);
    assert!(text.ends_with("    use j4rs::InvocationArg;\n\n    Ok(())\n}\n"));
    assert!(!text.contains("\"init\""));
}
