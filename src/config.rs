use vstd::prelude::*;
use crate::class::{
    all_wf, headers_of, headers_text, headers_use_optional, impls_insts, impls_of, impls_text,
    impls_use_optional, FinchClass,
};
use crate::context::GenContext;
use crate::emit::{
    crate_ident, decl_block, ident_of, namespace_wrap, splice_instantiations, spliced, views,
};
use crate::types::GenError;

verus! {

/// Everything one run produces, as text.
#[derive(Debug)]
pub struct GeneratedSources {
    /// The namespace of the output: the package name with `-` made `_`.
    pub namespace: String,
    /// The class declarations, inside the namespace.
    pub header: String,
    /// The class definitions, inside the namespace.
    pub implementation: String,
    /// The ABI header with the instantiations put before its marker.
    pub abi_header: String,
    /// The instantiations that the ABI header must declare, each once.
    pub instantiations: Vec<String>,
    /// Whether the optional support file is needed.
    pub uses_optional: bool,
    /// The whole declaration file.
    pub header_file: String,
    /// The whole definition file.
    pub impl_file: String,
}

/// The first unknown type of a run, if there is one.
pub open spec fn run_error(n: Seq<char>, classes: Seq<FinchClass>) -> Option<Seq<char>> {
    match headers_text(n, classes, classes.len()) {
        Err(m) => Some(m),
        Ok(_) => match impls_text(n, classes, classes.len()) {
            Err(m) => Some(m),
            Ok(_) => None,
        },
    }
}

/// What a run returns, for the package `package`, the classes `classes`, the
/// ABI header `abi`, its marker `marker` and the directive `d` that pulls a file in.
pub open spec fn generated(
    package: Seq<char>,
    classes: Seq<FinchClass>,
    abi: Seq<char>,
    marker: Seq<char>,
    d: Seq<char>,
    r: Result<GeneratedSources, GenError>,
) -> bool {
    let n = ident_of(package);
    match r {
        Ok(out) => {
            &&& run_error(n, classes) is None
            &&& out.namespace@ == n
            &&& out.header@ == namespace_wrap(n, headers_text(n, classes, classes.len())->Ok_0)
            &&& out.implementation@ == namespace_wrap(n, impls_text(n, classes, classes.len())->Ok_0)
            &&& views(out.instantiations@).no_duplicates()
            &&& views(out.instantiations@).to_set() == impls_insts(n, classes, classes.len())
            &&& out.abi_header@ == spliced(abi, marker, decl_block(views(out.instantiations@)))
            &&& out.uses_optional == (headers_use_optional(n, classes, classes.len()) || impls_use_optional(
                n,
                classes,
                classes.len(),
            ))
            &&& out.header_file@ == header_file(d, n, out.uses_optional, out.header@)
            &&& out.impl_file@ == impl_file(d, out.uses_optional, out.implementation@)
        },
        Err(GenError::UnknownType(m)) => run_error(n, classes) == Some(m@),
    }
}

/// Synthesizes the declarations and definitions of all classes, and the ABI
/// header with the instantiations that they need.
pub fn generate_sources(package: &str, classes: &Vec<FinchClass>, abi_header: &str, marker: &str, directive: &str) -> (r:
    Result<GeneratedSources, GenError>)
    requires
        all_wf(classes@),
    ensures
        generated(package@, classes@, abi_header@, marker@, directive@, r),
{
    let name = crate_ident(package);
    let mut ctx = GenContext::new(name.clone());
    let hs = match headers_of(&mut ctx, classes) {
        Ok(x) => x,
        Err(m) => return Err(m),
    };
    let is = match impls_of(&mut ctx, classes) {
        Ok(x) => x,
        Err(m) => return Err(m),
    };
    let instantiations = ctx.flush();
    proof {
        assert(views(instantiations@) == ctx.entries());
        assert(ctx.instantiations() =~= impls_insts(name@, classes@, classes@.len()));
    }
    let abi = splice_instantiations(abi_header, marker, &instantiations);
    let uses_optional = ctx.uses_optional();
    let header = namespace_wrap_text(name.as_str(), hs.as_str());
    let implementation = namespace_wrap_text(name.as_str(), is.as_str());
    let header_file = header_file_text(directive, name.as_str(), uses_optional, header.as_str());
    let impl_file = impl_file_text(directive, uses_optional, implementation.as_str());
    Ok(
        GeneratedSources {
            header,
            implementation,
            abi_header: abi,
            instantiations,
            uses_optional,
            namespace: name,
            header_file,
            impl_file,
        },
    )
}

fn namespace_wrap_text(n: &str, body: &str) -> (r: String)
    ensures
        r@ == namespace_wrap(n@, body@),
{
    let mut r = String::from_str("namespace ");
    r.append(n);
    r.append(" {\n");
    r.append(body);
    r.append("\n}\n");
    r
}

/// Where a run writes, and whether it writes a CMake file.
#[derive(Clone, Debug)]
pub struct Config {
    out_dir: String,
    generate_cmake: bool,
}

impl Default for Config {
    /// The current directory, with a CMake file.
    fn default() -> (r: Self)
        ensures
            r.spec_out_dir() == "."@,
            r.spec_generate_cmake(),
    {
        Config { out_dir: String::from_str("."), generate_cmake: true }
    }
}

impl Config {
    pub closed spec fn spec_out_dir(&self) -> Seq<char> {
        self.out_dir@
    }

    pub closed spec fn spec_generate_cmake(&self) -> bool {
        self.generate_cmake
    }

    pub fn out_dir(&self) -> (r: &str)
        ensures
            r@ == self.spec_out_dir(),
    {
        self.out_dir.as_str()
    }

    pub fn generate_cmake(&self) -> (r: bool)
        ensures
            r == self.spec_generate_cmake(),
    {
        self.generate_cmake
    }

    /// Runs the synthesis; see `generate_sources`.
    pub fn generate(self, package: &str, classes: &Vec<FinchClass>, abi_header: &str, marker: &str, directive: &str) -> (r:
        Result<GeneratedSources, GenError>)
        requires
            all_wf(classes@),
        ensures
            generated(package@, classes@, abi_header@, marker@, directive@, r),
    {
        generate_sources(package, classes, abi_header, marker, directive)
    }
}

/// Builds a `Config` step by step.
#[derive(Clone, Debug)]
pub struct Builder {
    config: Config,
}

impl Builder {
    pub closed spec fn spec_config(&self) -> Config {
        self.config
    }

    /// A builder with the default configuration.
    pub fn new() -> (r: Self)
        ensures
            r.spec_config().spec_out_dir() == "."@,
            r.spec_config().spec_generate_cmake(),
    {
        Builder { config: Config::default() }
    }

    pub fn with_out_dir(self, out_dir: String) -> (r: Self)
        ensures
            r.spec_config().spec_out_dir() == out_dir@,
            r.spec_config().spec_generate_cmake() == self.spec_config().spec_generate_cmake(),
    {
        let mut s = self;
        s.config.out_dir = out_dir;
        s
    }

    pub fn with_generate_cmake(self, value: bool) -> (r: Self)
        ensures
            r.spec_config().spec_out_dir() == self.spec_config().spec_out_dir(),
            r.spec_config().spec_generate_cmake() == value,
    {
        let mut s = self;
        s.config.generate_cmake = value;
        s
    }

    pub fn config(&self) -> (r: &Config)
        ensures
            *r == self.spec_config(),
    {
        &self.config
    }

    /// Runs the synthesis with this configuration.
    pub fn generate(self, package: &str, classes: &Vec<FinchClass>, abi_header: &str, marker: &str, directive: &str) -> (r:
        Result<GeneratedSources, GenError>)
        requires
            all_wf(classes@),
        ensures
            generated(package@, classes@, abi_header@, marker@, directive@, r),
    {
        self.config.generate(package, classes, abi_header, marker, directive)
    }
}

/// The head of the CMake file: the package name and where its headers are.
pub open spec fn cmake_head(package: Seq<char>, dir: Seq<char>) -> Seq<char> {
    "set(CRATE_NAME \""@ + package + "\")\nset("@ + package + "_INCLUDE_DIR \"${CMAKE_CURRENT_SOURCE_DIR}/"@
        + dir + "\")\n\n"@
}

pub fn cmake_head_text(package: &str, dir: &str) -> (r: String)
    ensures
        r@ == cmake_head(package@, dir@),
{
    let mut r = String::from_str("set(CRATE_NAME \"");
    r.append(package);
    r.append("\")\nset(");
    r.append(package);
    r.append("_INCLUDE_DIR \"${CMAKE_CURRENT_SOURCE_DIR}/");
    r.append(dir);
    r.append("\")\n\n");
    r
}

/// The optional support header's line, when the run used the optional wrapper.
pub open spec fn optional_line(d: Seq<char>, uses_optional: bool) -> Seq<char> {
    if uses_optional {
        d + " \"optional.h\"\n"@
    } else {
        Seq::empty()
    }
}

/// The head shared by both output files; `d` is the preprocessor directive
/// that pulls a file in.
pub open spec fn preamble(d: Seq<char>, uses_optional: bool) -> Seq<char> {
    "#pragma once\n\n"@ + d + " <cstdarg>\n"@ + d + " <cstdint>\n"@ + d + " <cstdlib>\n"@ + d
        + " <cassert>\n"@ + d + " <new>\n"@ + d + " <iostream>\n"@ + d + " <stdexcept>\n"@ + d
        + " <string>\n"@ + optional_line(d, uses_optional)
}

/// The declaration file: the ABI header, the class declarations inside the
/// namespace, then the definition file.
pub open spec fn header_file(d: Seq<char>, n: Seq<char>, uses_optional: bool, body: Seq<char>) -> Seq<char> {
    preamble(d, uses_optional) + "\n"@ + d + " \""@ + n + "-finch_bindgen.h\"\n\n"@ + body + "\n"@ + d
        + " \""@ + n + "-impl.h\"\n"@
}

/// The definition file: the exception switch, then the definitions inside the namespace.
pub open spec fn impl_file(d: Seq<char>, uses_optional: bool, body: Seq<char>) -> Seq<char> {
    preamble(d, uses_optional)
        + "\n#if defined(__cpp_exceptions) || defined(__EXCEPTIONS) || defined(_CPPUNWIND)\n  #define finch_bindgen_EXCEPTIONS\n#endif\n\n"@
        + body
}

fn optional_line_text(d: &str, uses_optional: bool) -> (r: String)
    ensures
        r@ == optional_line(d@, uses_optional),
{
    if uses_optional {
        String::from_str(d).concat(" \"optional.h\"\n")
    } else {
        String::new()
    }
}

pub fn preamble_text(d: &str, uses_optional: bool) -> (r: String)
    ensures
        r@ == preamble(d@, uses_optional),
{
    let mut r = String::from_str("#pragma once\n\n");
    r.append(d);
    r.append(" <cstdarg>\n");
    r.append(d);
    r.append(" <cstdint>\n");
    r.append(d);
    r.append(" <cstdlib>\n");
    r.append(d);
    r.append(" <cassert>\n");
    r.append(d);
    r.append(" <new>\n");
    r.append(d);
    r.append(" <iostream>\n");
    r.append(d);
    r.append(" <stdexcept>\n");
    r.append(d);
    r.append(" <string>\n");
    r.append(optional_line_text(d, uses_optional).as_str());
    r
}

pub fn header_file_text(d: &str, n: &str, uses_optional: bool, body: &str) -> (r: String)
    ensures
        r@ == header_file(d@, n@, uses_optional, body@),
{
    let mut r = preamble_text(d, uses_optional);
    r.append("\n");
    r.append(d);
    r.append(" \"");
    r.append(n);
    r.append("-finch_bindgen.h\"\n\n");
    r.append(body);
    r.append("\n");
    r.append(d);
    r.append(" \"");
    r.append(n);
    r.append("-impl.h\"\n");
    r
}

pub fn impl_file_text(d: &str, uses_optional: bool, body: &str) -> (r: String)
    ensures
        r@ == impl_file(d@, uses_optional, body@),
{
    let mut r = preamble_text(d, uses_optional);
    r.append(
        "\n#if defined(__cpp_exceptions) || defined(__EXCEPTIONS) || defined(_CPPUNWIND)\n  #define finch_bindgen_EXCEPTIONS\n#endif\n\n",
    );
    r.append(body);
    r
}

/// The names of the three headers of a run, for the namespace `n`.
pub open spec fn header_file_name(n: Seq<char>) -> Seq<char> {
    n + ".h"@
}

pub open spec fn impl_file_name(n: Seq<char>) -> Seq<char> {
    n + "-impl.h"@
}

pub open spec fn abi_file_name(n: Seq<char>) -> Seq<char> {
    n + "-finch_bindgen.h"@
}

pub fn header_file_name_text(n: &str) -> (r: String)
    ensures
        r@ == header_file_name(n@),
{
    String::from_str(n).concat(".h")
}

pub fn impl_file_name_text(n: &str) -> (r: String)
    ensures
        r@ == impl_file_name(n@),
{
    String::from_str(n).concat("-impl.h")
}

pub fn abi_file_name_text(n: &str) -> (r: String)
    ensures
        r@ == abi_file_name(n@),
{
    String::from_str(n).concat("-finch_bindgen.h")
}

} // verus!
