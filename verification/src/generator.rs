//! The component-package generator's plumbing-free parts: its
//! configuration, the request and response shapes, and the plan of
//! files a generated package is written from. Template rendering,
//! filesystem writes and the docker/npm builds happen outside the
//! library; what reaches the disk is decided here.

use vstd::prelude::*;
use vstd::string::StringExecFns;
use crate::service::pairs_view;

verus! {

/// Build-environment configuration.
pub struct GeneratorConfig {
    pub npm_path: String,
    pub use_docker: bool,
    pub docker_image: String,
    pub build_timeout_seconds: u64,
}

impl Default for GeneratorConfig {
    /// The configuration used when the environment supplies nothing.
    fn default() -> (r: GeneratorConfig)
        ensures
            r.npm_path@ == "npm"@,
            r.use_docker == true,
            r.docker_image@ == "node-builder:latest"@,
            r.build_timeout_seconds == 300u64,
    {
        GeneratorConfig {
            npm_path: "npm".to_owned(),
            use_docker: true,
            docker_image: "node-builder:latest".to_owned(),
            build_timeout_seconds: 300,
        }
    }
}

/// Runs package builds inside a container.
pub struct DockerBuilder {
    pub config: GeneratorConfig,
}

impl DockerBuilder {
    /// A builder over the given configuration.
    pub fn new(config: GeneratorConfig) -> (r: DockerBuilder)
        ensures
            r.config == config,
    {
        DockerBuilder { config }
    }
}

/// Runs package builds with a local npm.
pub struct NpmBuilder {
    pub config: GeneratorConfig,
}

impl NpmBuilder {
    /// A builder over the given configuration.
    pub fn new(config: GeneratorConfig) -> (r: NpmBuilder)
        ensures
            r.config == config,
    {
        NpmBuilder { config }
    }
}

/// A request to generate one component package.
pub struct CreateComponentRequest {
    pub component_type: String,
    pub name: String,
    /// Style properties, as key/value pairs in the order supplied.
    pub config: Vec<(String, String)>,
    pub framework: String,
    pub typescript: bool,
    pub package_name: String,
    pub version: String,
}

/// The reply to a generation request.
pub struct CreateComponentResponse {
    pub success: bool,
    pub message: String,
    pub job_id: Option<String>,
}

/// The rendered sources of one generated package.
pub struct GeneratedPackage {
    pub component_code: String,
    pub package_json: String,
    pub index_ts: String,
}

/// Relies on uuid's `Uuid::new_v4`, rendered in its hyphenated form:
/// 36 characters. The value is random; nothing more is assumed of it.
#[verifier::external_body]
fn new_job_id() -> (r: String)
    ensures
        r@.len() == 36,
{
    uuid::Uuid::new_v4().to_string()
}

/// A build directory for one generation job.
pub struct PackageBuilder {
    pub job_id: String,
    pub base_path: String,
}

impl PackageBuilder {
    /// A fresh job with its own build directory under `./tmp/builds`.
    /// The caller creates the directory (and its `src` subdirectory)
    /// before writing the planned files.
    pub fn new() -> (r: PackageBuilder)
        ensures
            r.job_id@.len() == 36,
            r.base_path@ == "./tmp/builds/"@ + r.job_id@,
    {
        let job_id = new_job_id();
        let base_path = "./tmp/builds/".to_owned().concat(job_id.as_str());
        PackageBuilder { job_id, base_path }
    }

    /// The job's build directory.
    pub fn get_path(&self) -> (r: &str)
        ensures
            r@ == self.base_path@,
    {
        self.base_path.as_str()
    }

    /// The TypeScript configuration written into a TypeScript package.
    pub fn create_tsconfig(&self) -> (r: String)
        ensures
            r@ == tsconfig_text(),
    {
        tsconfig()
    }
}

/// The TypeScript configuration written into a TypeScript package.
pub fn tsconfig() -> (r: String)
    ensures
        r@ == tsconfig_text(),
{
    "{\n  \"compilerOptions\": {\n    \"target\": \"es5\",\n    \"module\": \"esnext\",\n    \"lib\": [\"dom\", \"esnext\"],\n    \"declaration\": true,\n    \"outDir\": \"./dist\",\n    \"strict\": true,\n    \"jsx\": \"react\",\n    \"esModuleInterop\": true,\n    \"skipLibCheck\": true,\n    \"forceConsistentCasingInFileNames\": true\n  },\n  \"include\": [\"src\"],\n  \"exclude\": [\"node_modules\", \"dist\"]\n}".to_owned()
}

/// The TypeScript configuration text.
pub open spec fn tsconfig_text() -> Seq<char> {
    "{\n  \"compilerOptions\": {\n    \"target\": \"es5\",\n    \"module\": \"esnext\",\n    \"lib\": [\"dom\", \"esnext\"],\n    \"declaration\": true,\n    \"outDir\": \"./dist\",\n    \"strict\": true,\n    \"jsx\": \"react\",\n    \"esModuleInterop\": true,\n    \"skipLibCheck\": true,\n    \"forceConsistentCasingInFileNames\": true\n  },\n  \"include\": [\"src\"],\n  \"exclude\": [\"node_modules\", \"dist\"]\n}"@
}

/// The bundler configuration text written into every package.
pub open spec fn rollup_config_text() -> Seq<char> {
    "import typescript from '@rollup/plugin-typescript';\n\nexport default {\n  input: 'src/index.ts',\n  output: [\n    {\n      file: 'dist/index.js',\n      format: 'cjs',\n      exports: 'named'\n    },\n    {\n      file: 'dist/index.esm.js',\n      format: 'es'\n    }\n  ],\n  external: ['react', 'react-dom'],\n  plugins: [typescript()]\n};\n"@
}

/// The bundler configuration written into every package.
pub fn rollup_config() -> (r: String)
    ensures
        r@ == rollup_config_text(),
{
    "import typescript from '@rollup/plugin-typescript';\n\nexport default {\n  input: 'src/index.ts',\n  output: [\n    {\n      file: 'dist/index.js',\n      format: 'cjs',\n      exports: 'named'\n    },\n    {\n      file: 'dist/index.esm.js',\n      format: 'es'\n    }\n  ],\n  external: ['react', 'react-dom'],\n  plugins: [typescript()]\n};\n".to_owned()
}

/// The file name a component is written under: the component's name
/// with the extension its language calls for.
pub open spec fn spec_component_filename(name: Seq<char>, typescript: bool) -> Seq<char> {
    name + if typescript {
        ".tsx"@
    } else {
        ".jsx"@
    }
}

/// The component's file name, as [`spec_component_filename`] says.
pub fn component_filename(name: &str, typescript: bool) -> (r: String)
    ensures
        r@ == spec_component_filename(name@, typescript),
{
    if typescript {
        name.to_owned().concat(".tsx")
    } else {
        name.to_owned().concat(".jsx")
    }
}

/// The single re-export line of a package's `index.ts`.
pub open spec fn spec_index_ts(name: Seq<char>) -> Seq<char> {
    "export { default as "@ + name + " } from './"@ + name + "';"@
}

/// Render the package's `index.ts`, as [`spec_index_ts`] says.
pub fn index_ts_line(name: &str) -> (r: String)
    ensures
        r@ == spec_index_ts(name@),
{
    "export { default as ".to_owned().concat(name).concat(" } from './").concat(name).concat(
        "';",
    )
}

/// Which files a generated package is written from: relative path and
/// contents, in write order. The component source and the index go
/// under `src`; the TypeScript configuration appears only for a
/// TypeScript package; the bundler configuration closes the list.
pub open spec fn spec_planned_files(
    name: Seq<char>,
    typescript: bool,
    component_code: Seq<char>,
    package_json: Seq<char>,
    index_ts: Seq<char>,
) -> Seq<(Seq<char>, Seq<char>)> {
    seq![
        ("src/"@ + spec_component_filename(name, typescript), component_code),
        ("src/index.ts"@, index_ts),
        ("package.json"@, package_json),
    ] + if typescript {
        seq![("tsconfig.json"@, tsconfig_text())]
    } else {
        Seq::empty()
    } + seq![("rollup.config.js"@, rollup_config_text())]
}

/// Plan the files of a generated package, as [`spec_planned_files`]
/// says. The caller writes each pair under the job's build directory.
pub fn planned_files(request: &CreateComponentRequest, package: &GeneratedPackage) -> (r: Vec<
    (String, String),
>)
    ensures
        pairs_view(r@) == spec_planned_files(
            request.name@,
            request.typescript,
            package.component_code@,
            package.package_json@,
            package.index_ts@,
        ),
{
    let mut out: Vec<(String, String)> = Vec::new();
    let component_path = "src/".to_owned().concat(
        component_filename(request.name.as_str(), request.typescript).as_str(),
    );
    out.push((component_path, package.component_code.clone()));
    out.push(("src/index.ts".to_owned(), package.index_ts.clone()));
    out.push(("package.json".to_owned(), package.package_json.clone()));
    if request.typescript {
        out.push(("tsconfig.json".to_owned(), tsconfig()));
    }
    out.push(("rollup.config.js".to_owned(), rollup_config()));
    proof {
        assert(pairs_view(out@) =~= spec_planned_files(
            request.name@,
            request.typescript,
            package.component_code@,
            package.package_json@,
            package.index_ts@,
        ));
    }
    out
}

} // verus!
