//! Naming of the FFI entry points generated for each protobuf service.
//!
//! Every method `m` of a service `S` in package `p` gets a C entry point named
//! `ffi_<snake(S)>_<m>`, which decodes the method's input message and calls the
//! Rust implementation `<impl_module>::ffi_<snake(S)>_<m>_impl`. The Java side
//! finds the entry points through the class `<p>.<S>Ffi`.
use vstd::prelude::*;
use vstd::string::*;

use crate::codegen::cases::{pascal_case, snake_case, to_pascal_case, to_snake_case};
use crate::text::{
    has_prefix, join_spec, join_with, lemma_split_nonempty, split_on, split_spec, starts_with,
    strings_view, trim_leading, trim_start_char,
};

verus! {

/// One generated FFI entry point of a service.
#[derive(Clone, Debug)]
pub struct MethodInfo {
    pub fn_name: String,
}

/// What code generation recorded of one service.
#[derive(Clone, Debug)]
pub struct ServiceInfo {
    pub java_class: String,
    pub methods: Vec<MethodInfo>,
    pub rust_module: String,
}

/// A method of a protobuf service, as the service description gives it.
#[derive(Clone, Debug)]
pub struct ServiceMethod {
    pub name: String,
    /// The fully qualified protobuf type of the input, such as `.patchbukkit.common.Uuid`.
    pub input_proto_type: String,
}

/// The names that the generated entry point of one method is written with.
#[derive(Clone, Debug)]
pub struct FfiBinding {
    /// Name of the exported C function.
    pub fn_name: String,
    /// Rust path of the input message type.
    pub input_type: String,
    /// Rust path of the function that implements the method.
    pub impl_path: String,
}

/// Generates FFI entry points for protobuf services and records them, so that
/// the Java bridge classes can be initialised with their addresses.
pub struct FfiServiceGenerator {
    pub impl_module: String,
    pub proto_module: String,
    pub services: Vec<ServiceInfo>,
}

/// The Rust module path of a protobuf package: its dot-separated components in
/// snake case, joined with `::`.
pub open spec fn rust_module_spec(package: Seq<char>) -> Seq<char> {
    join_spec(split_spec(package, '.').map_values(|p: Seq<char>| snake_case(p)), "::"@)
}

/// The Java class that carries the FFI bridge of a service: `<package>.<service>Ffi`.
pub open spec fn java_class_spec(package: Seq<char>, service_name: Seq<char>) -> Seq<char> {
    package + "."@ + service_name + "Ffi"@
}

/// The prefix of the protobuf well-known types.
pub open spec fn well_known_prefix() -> Seq<char> {
    "google.protobuf."@
}

/// The Rust path of a fully qualified protobuf type. Leading dots are ignored.
/// Well-known types map into `::prost_types`; any other type `a.b.C` maps to
/// `<proto_module>::a::b::C`, with the module components in snake case and the
/// type name in Pascal case.
pub open spec fn rust_type_spec(proto_module: Seq<char>, proto_type: Seq<char>) -> Seq<char> {
    let trimmed = trim_leading(proto_type, '.');
    if has_prefix(trimmed, well_known_prefix()) {
        "::prost_types::"@ + trimmed.skip(well_known_prefix().len() as int)
    } else {
        let parts = split_spec(trimmed, '.');
        let rust_module = join_spec(
            parts.drop_last().map_values(|p: Seq<char>| snake_case(p)),
            "::"@,
        );
        proto_module + "::"@ + rust_module + "::"@ + pascal_case(parts.last())
    }
}

/// The name of the exported C function of a method: `ffi_<snake(service)>_<method>`.
pub open spec fn ffi_fn_name_spec(service_name: Seq<char>, method_name: Seq<char>) -> Seq<char> {
    "ffi_"@ + snake_case(service_name) + "_"@ + method_name
}

/// The names of the generated functions recorded for a service.
pub open spec fn method_names(s: ServiceInfo) -> Seq<Seq<char>> {
    s.methods@.map_values(|m: MethodInfo| m.fn_name@)
}

/// Two service records hold the same names.
pub open spec fn same_service(a: ServiceInfo, b: ServiceInfo) -> bool {
    &&& a.java_class@ == b.java_class@
    &&& a.rust_module@ == b.rust_module@
    &&& method_names(a) == method_names(b)
}

/// The Rust source of the exported C function of one method. It decodes
/// `input_len` bytes at `input_ptr` as the input message type; when decoding
/// fails, or the implementation returns `None`, it writes 0 to `*output_len`
/// and returns a null pointer; else it returns the encoded response, whose
/// length it writes to `*output_len`, and leaves the buffer to
/// `ffi_free_bytes`.
pub open spec fn entry_point_text(b: FfiBinding) -> Seq<char> {
    "/// FFI function for "@ + b.fn_name@ + "\n///\n/// # Safety\n///\n/// - `input_ptr` must be a valid pointer to `input_len` bytes of memory\n/// - `output_len` must be a valid pointer to write the output length\n/// - The caller is responsible for freeing the returned pointer using `ffi_free_bytes`\n#[unsafe(no_mangle)]\npub unsafe extern \"C\" fn "@ + b.fn_name@ + "(\n    input_ptr: *const u8,\n    input_len: usize,\n    output_len: *mut usize,\n) -> *mut u8 {\n    use prost::Message;\n    let input_slice = unsafe { std::slice::from_raw_parts(input_ptr, input_len) };\n    let Ok(request) = "@ + b.input_type@ + "::decode(input_slice) else {\n        unsafe { *output_len = 0 };\n        return std::ptr::null_mut();\n    };\n    let Some(response) = "@ + b.impl_path@
        + "(request) else {\n        unsafe { *output_len = 0 };\n        return std::ptr::null_mut();\n    };\n    let encoded = response.encode_to_vec();\n    unsafe { *output_len = encoded.len() };\n    let ptr = encoded.as_ptr() as *mut u8;\n    std::mem::forget(encoded);\n    ptr\n}\n"@
}

/// The sources of the entry points of a list of bindings, one after the other.
pub open spec fn entry_points_text(bs: Seq<FfiBinding>) -> Seq<char>
    decreases bs.len(),
{
    if bs.len() == 0 {
        Seq::<char>::empty()
    } else {
        entry_points_text(bs.drop_last()) + entry_point_text(bs.last())
    }
}

/// The Rust source of the exported C function of one method.
pub fn entry_point_source(b: &FfiBinding) -> (r: String)
    ensures
        r@ == entry_point_text(*b),
{
    let mut r = String::from_str("/// FFI function for ");
    r.append(b.fn_name.as_str());
    r.append("\n///\n/// # Safety\n///\n/// - `input_ptr` must be a valid pointer to `input_len` bytes of memory\n/// - `output_len` must be a valid pointer to write the output length\n/// - The caller is responsible for freeing the returned pointer using `ffi_free_bytes`\n#[unsafe(no_mangle)]\npub unsafe extern \"C\" fn ");
    r.append(b.fn_name.as_str());
    r.append("(\n    input_ptr: *const u8,\n    input_len: usize,\n    output_len: *mut usize,\n) -> *mut u8 {\n    use prost::Message;\n    let input_slice = unsafe { std::slice::from_raw_parts(input_ptr, input_len) };\n    let Ok(request) = ");
    r.append(b.input_type.as_str());
    r.append("::decode(input_slice) else {\n        unsafe { *output_len = 0 };\n        return std::ptr::null_mut();\n    };\n    let Some(response) = ");
    r.append(b.impl_path.as_str());
    r.append("(request) else {\n        unsafe { *output_len = 0 };\n        return std::ptr::null_mut();\n    };\n    let encoded = response.encode_to_vec();\n    unsafe { *output_len = encoded.len() };\n    let ptr = encoded.as_ptr() as *mut u8;\n    std::mem::forget(encoded);\n    ptr\n}\n");
    r
}

/// The line of `ffi_init.rs` that passes the address of one entry point of a
/// service whose messages live in the module `rust_module` under `crate::proto`.
pub open spec fn method_init_line(rust_module: Seq<char>, fn_name: Seq<char>) -> Seq<char> {
    "            InvocationArg::try_from(crate::proto::"@ + rust_module + "::"@ + fn_name + " as *const () as i64)?.into_primitive()?,\n"@
}

/// The lines that pass the entry points of a service's methods, in order.
pub open spec fn method_init_lines(rust_module: Seq<char>, methods: Seq<MethodInfo>) -> Seq<char>
    decreases methods.len(),
{
    if methods.len() == 0 {
        Seq::<char>::empty()
    } else {
        method_init_lines(rust_module, methods.drop_last()) + method_init_line(
            rust_module,
            methods.last().fn_name@,
        )
    }
}

/// The part of `ffi_init.rs` for one service: a call of `init` on its Java
/// bridge class with the addresses of its entry points, then a call of
/// `initFree` with the address of `ffi_free_bytes`.
pub open spec fn service_init_text(s: ServiceInfo) -> Seq<char> {
    "\n    // Initialize "@ + s.java_class@ + "\n    jvm.invoke_static(\n        \""@ + s.java_class@ + "\",\n        \"init\",\n        &[\n"@
        + method_init_lines(s.rust_module@, s.methods@) + "        ],\n    )?;\n\n    jvm.invoke_static(\n        \""@ + s.java_class@ + "\",\n        \"initFree\",\n        &[InvocationArg::try_from(ffi_free_bytes as *const () as i64)?.into_primitive()?],\n    )?;\n"@
}

/// The parts of `ffi_init.rs` for a list of services, one after the other.
pub open spec fn services_init_text(services: Seq<ServiceInfo>) -> Seq<char>
    decreases services.len(),
{
    if services.len() == 0 {
        Seq::<char>::empty()
    } else {
        services_init_text(services.drop_last()) + service_init_text(services.last())
    }
}

/// The text of `ffi_init.rs`: the function `ffi_free_bytes`, which frees a
/// buffer an entry point returned, and `initialize_ffi_callbacks`, which hands
/// every recorded service's entry points to its Java bridge class and ends
/// with `Ok(())`.
pub open spec fn ffi_init_text(services: Seq<ServiceInfo>) -> Seq<char> {
    "/// Frees bytes allocated by FFI functions\n///\n/// # Safety\n///\n/// - `ptr` must have been returned by an FFI function in this module\n/// - `len` must be the length that was written to `output_len`\n/// - The pointer must not have been freed previously\n#[unsafe(no_mangle)]\npub unsafe extern \"C\" fn ffi_free_bytes(ptr: *mut u8, len: usize) {\n    if !ptr.is_null() && len > 0 {\n        unsafe {\n            drop(Vec::from_raw_parts(ptr, len, len));\n        }\n    }\n}\n\npub fn initialize_ffi_callbacks(jvm: &j4rs::Jvm) -> anyhow::Result<()> {\n    use j4rs::InvocationArg;\n"@ + services_init_text(services) + "\n    Ok(())\n}\n"@
}

fn append_service_init(buf: &mut String, s: &ServiceInfo)
    ensures
        final(buf)@ == old(buf)@ + service_init_text(*s),
{
    buf.append("\n    // Initialize ");
    buf.append(s.java_class.as_str());
    buf.append("\n    jvm.invoke_static(\n        \"");
    buf.append(s.java_class.as_str());
    buf.append("\",\n        \"init\",\n        &[\n");
    let ghost start = buf@;
    let mut i: usize = 0;
    while i < s.methods.len()
        invariant
            i <= s.methods@.len(),
            buf@ == start + method_init_lines(s.rust_module@, s.methods@.take(i as int)),
        decreases s.methods@.len() - i,
    {
        assert(s.methods@.take(i + 1).drop_last() =~= s.methods@.take(i as int));
        buf.append("            InvocationArg::try_from(crate::proto::");
        buf.append(s.rust_module.as_str());
        buf.append("::");
        buf.append(s.methods[i].fn_name.as_str());
        buf.append(" as *const () as i64)?.into_primitive()?,\n");
        i += 1;
    }
    assert(s.methods@.take(s.methods@.len() as int) =~= s.methods@);
    buf.append("        ],\n    )?;\n\n    jvm.invoke_static(\n        \"");
    buf.append(s.java_class.as_str());
    buf.append("\",\n        \"initFree\",\n        &[InvocationArg::try_from(ffi_free_bytes as *const () as i64)?.into_primitive()?],\n    )?;\n");
}

/// The text of `ffi_init.rs` for the recorded services.
pub fn ffi_init_source(services: &Vec<ServiceInfo>) -> (r: String)
    ensures
        r@ == ffi_init_text(services@),
{
    let mut r = String::from_str("/// Frees bytes allocated by FFI functions\n///\n/// # Safety\n///\n/// - `ptr` must have been returned by an FFI function in this module\n/// - `len` must be the length that was written to `output_len`\n/// - The pointer must not have been freed previously\n#[unsafe(no_mangle)]\npub unsafe extern \"C\" fn ffi_free_bytes(ptr: *mut u8, len: usize) {\n    if !ptr.is_null() && len > 0 {\n        unsafe {\n            drop(Vec::from_raw_parts(ptr, len, len));\n        }\n    }\n}\n\npub fn initialize_ffi_callbacks(jvm: &j4rs::Jvm) -> anyhow::Result<()> {\n    use j4rs::InvocationArg;\n");
    let ghost start = r@;
    let mut i: usize = 0;
    while i < services.len()
        invariant
            i <= services@.len(),
            r@ == start + services_init_text(services@.take(i as int)),
        decreases services@.len() - i,
    {
        assert(services@.take(i + 1).drop_last() =~= services@.take(i as int));
        append_service_init(&mut r, &services[i]);
        i += 1;
    }
    assert(services@.take(services@.len() as int) =~= services@);
    r.append("\n    Ok(())\n}\n");
    r
}

/// Snake case of every string of a list.
fn snake_all(parts: &Vec<String>, upto: usize) -> (r: Vec<String>)
    requires
        upto <= parts@.len(),
    ensures
        strings_view(r@) == strings_view(parts@).take(upto as int).map_values(
            |p: Seq<char>| snake_case(p),
        ),
{
    let mut r: Vec<String> = Vec::new();
    let mut i: usize = 0;
    while i < upto
        invariant
            upto <= parts@.len(),
            i <= upto,
            strings_view(r@) == strings_view(parts@).take(i as int).map_values(
                |p: Seq<char>| snake_case(p),
            ),
        decreases upto - i,
    {
        let ghost prev = strings_view(r@);
        let s = to_snake_case(parts[i].as_str());
        r.push(s);
        assert(strings_view(r@) == prev.push(s@));
        assert(strings_view(parts@)[i as int] == parts@[i as int]@);
        assert(strings_view(r@) =~= strings_view(parts@).take(i + 1).map_values(
            |p: Seq<char>| snake_case(p),
        ));
        i += 1;
    }
    r
}

fn copy_methods(methods: &Vec<MethodInfo>) -> (r: Vec<MethodInfo>)
    ensures
        r@.map_values(|m: MethodInfo| m.fn_name@) == methods@.map_values(
            |m: MethodInfo| m.fn_name@,
        ),
{
    let mut r: Vec<MethodInfo> = Vec::new();
    let mut i: usize = 0;
    while i < methods.len()
        invariant
            i <= methods@.len(),
            r@.map_values(|m: MethodInfo| m.fn_name@) == methods@.take(i as int).map_values(
                |m: MethodInfo| m.fn_name@,
            ),
        decreases methods@.len() - i,
    {
        let ghost prev = r@.map_values(|m: MethodInfo| m.fn_name@);
        let name = methods[i].fn_name.clone();
        r.push(MethodInfo { fn_name: name });
        assert(r@.map_values(|m: MethodInfo| m.fn_name@) == prev.push(name@));
        assert(r@.map_values(|m: MethodInfo| m.fn_name@) =~= methods@.take(i + 1).map_values(
            |m: MethodInfo| m.fn_name@,
        ));
        i += 1;
    }
    assert(methods@.take(methods@.len() as int) =~= methods@);
    r
}

impl FfiServiceGenerator {
    /// A generator that calls implementations in `impl_module` and finds the
    /// message types under `proto_module`, with no service recorded yet.
    pub fn new(impl_module: String, proto_module: String) -> (g: Self)
        ensures
            g.impl_module@ == impl_module@,
            g.proto_module@ == proto_module@,
            g.services@.len() == 0,
    {
        FfiServiceGenerator { impl_module, proto_module, services: Vec::new() }
    }

    /// The Rust path of a fully qualified protobuf type.
    pub fn proto_type_to_rust(&self, proto_type: &str) -> (r: String)
        ensures
            r@ == rust_type_spec(self.proto_module@, proto_type@),
    {
        let trimmed = trim_start_char(proto_type, '.');
        let prefix = "google.protobuf.";
        proof {
            reveal_strlit("google.protobuf.");
        }
        if starts_with(trimmed, prefix) {
            let n = trimmed.unicode_len();
            let rest = trimmed.substring_char(16, n);
            let mut r = String::from_str("::prost_types::");
            r.append(rest);
            return r;
        }
        let parts = split_on(trimmed, '.');
        proof {
            lemma_split_nonempty(trimmed@, '.');
        }
        let last = parts.len() - 1;
        let modules = snake_all(&parts, last);
        let rust_module = join_with(&modules, "::");
        let pascal_name = to_pascal_case(parts[last].as_str());
        let mut r = self.proto_module.clone();
        r.append("::");
        r.append(rust_module.as_str());
        r.append("::");
        r.append(pascal_name.as_str());
        assert(strings_view(parts@).take(last as int) =~= split_spec(trimmed@, '.').drop_last());
        r
    }

    /// The Java class that carries the FFI bridge of a service.
    pub fn proto_package_to_java_class(&self, package: &str, service_name: &str) -> (r: String)
        ensures
            r@ == java_class_spec(package@, service_name@),
    {
        let mut r = String::from_str(package);
        r.append(".");
        r.append(service_name);
        r.append("Ffi");
        r
    }

    /// The Rust module path of a protobuf package.
    pub fn package_to_module_path(&self, package: &str) -> (r: String)
        ensures
            r@ == rust_module_spec(package@),
    {
        let parts = split_on(package, '.');
        let snakes = snake_all(&parts, parts.len());
        assert(strings_view(parts@).take(parts@.len() as int) =~= strings_view(parts@));
        join_with(&snakes, "::")
    }

    /// A copy of the services recorded so far.
    pub fn get_state(&self) -> (r: Vec<ServiceInfo>)
        ensures
            r@.len() == self.services@.len(),
            forall|i: int| 0 <= i < r@.len() ==> same_service(#[trigger] r@[i], self.services@[i]),
    {
        let mut r: Vec<ServiceInfo> = Vec::new();
        let mut i: usize = 0;
        while i < self.services.len()
            invariant
                i <= self.services@.len(),
                r@.len() == i,
                forall|j: int| 0 <= j < i ==> same_service(#[trigger] r@[j], self.services@[j]),
            decreases self.services@.len() - i,
        {
            let s = &self.services[i];
            r.push(
                ServiceInfo {
                    java_class: s.java_class.clone(),
                    methods: copy_methods(&s.methods),
                    rust_module: s.rust_module.clone(),
                },
            );
            i += 1;
        }
        r
    }

    /// Names the entry point of every method of the service `service_name` in
    /// `package`, appends the source of each entry point to `buf`, in method
    /// order, and records the service.
    pub fn generate(
        &mut self,
        package: &str,
        service_name: &str,
        methods: &Vec<ServiceMethod>,
        buf: &mut String,
    ) -> (bindings: Vec<FfiBinding>)
        ensures
            final(buf)@ == old(buf)@ + entry_points_text(bindings@),
            final(self).impl_module@ == old(self).impl_module@,
            final(self).proto_module@ == old(self).proto_module@,
            final(self).services@.len() == old(self).services@.len() + 1,
            forall|i: int|
                0 <= i < old(self).services@.len() ==> same_service(
                    #[trigger] final(self).services@[i],
                    old(self).services@[i],
                ),
            final(self).services@.last().java_class@ == java_class_spec(
                package@,
                service_name@,
            ),
            final(self).services@.last().rust_module@ == rust_module_spec(package@),
            method_names(final(self).services@.last()) == methods@.map_values(
                |m: ServiceMethod| ffi_fn_name_spec(service_name@, m.name@),
            ),
            bindings@.len() == methods@.len(),
            forall|i: int|
                0 <= i < bindings@.len() ==> {
                    &&& (#[trigger] bindings@[i]).fn_name@ == ffi_fn_name_spec(
                        service_name@,
                        methods@[i].name@,
                    )
                    &&& bindings@[i].input_type@ == rust_type_spec(
                        old(self).proto_module@,
                        methods@[i].input_proto_type@,
                    )
                    &&& bindings@[i].impl_path@ == old(self).impl_module@ + "::"@
                        + bindings@[i].fn_name@ + "_impl"@
                },
    {
        let rust_module = self.package_to_module_path(package);
        let java_class = self.proto_package_to_java_class(package, service_name);
        let service_snake = to_snake_case(service_name);
        let mut infos: Vec<MethodInfo> = Vec::new();
        let mut bindings: Vec<FfiBinding> = Vec::new();
        let mut i: usize = 0;
        while i < methods.len()
            invariant
                i <= methods@.len(),
                buf@ == old(buf)@ + entry_points_text(bindings@),
                service_snake@ == snake_case(service_name@),
                infos@.len() == i,
                bindings@.len() == i,
                infos@.map_values(|m: MethodInfo| m.fn_name@) == methods@.take(i as int).map_values(
                    |m: ServiceMethod| ffi_fn_name_spec(service_name@, m.name@),
                ),
                forall|j: int|
                    0 <= j < i ==> {
                        &&& (#[trigger] bindings@[j]).fn_name@ == ffi_fn_name_spec(
                            service_name@,
                            methods@[j].name@,
                        )
                        &&& bindings@[j].input_type@ == rust_type_spec(
                            self.proto_module@,
                            methods@[j].input_proto_type@,
                        )
                        &&& bindings@[j].impl_path@ == self.impl_module@ + "::"@
                            + bindings@[j].fn_name@ + "_impl"@
                    },
            decreases methods@.len() - i,
        {
            let m = &methods[i];
            let mut fn_name = String::from_str("ffi_");
            fn_name.append(service_snake.as_str());
            fn_name.append("_");
            fn_name.append(m.name.as_str());
            let input_type = self.proto_type_to_rust(m.input_proto_type.as_str());
            let mut impl_path = self.impl_module.clone();
            impl_path.append("::");
            impl_path.append(fn_name.as_str());
            impl_path.append("_impl");
            let ghost prev = infos@.map_values(|m: MethodInfo| m.fn_name@);
            let recorded = fn_name.clone();
            infos.push(MethodInfo { fn_name: recorded });
            assert(infos@.map_values(|m: MethodInfo| m.fn_name@) == prev.push(recorded@));
            let ghost before = bindings@;
            let binding = FfiBinding { fn_name, input_type, impl_path };
            let source = entry_point_source(&binding);
            buf.append(source.as_str());
            bindings.push(binding);
            assert(bindings@.drop_last() =~= before);
            assert(infos@.map_values(|m: MethodInfo| m.fn_name@) =~= methods@.take(
                i + 1,
            ).map_values(|m: ServiceMethod| ffi_fn_name_spec(service_name@, m.name@)));
            i += 1;
        }
        assert(methods@.take(methods@.len() as int) =~= methods@);
        self.services.push(ServiceInfo { java_class, methods: infos, rust_module });
        bindings
    }
}

} // verus!
