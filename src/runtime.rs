use vstd::prelude::*;

use crate::config::{check_output_path, has_extension_of, layout_check, ClientFormat, LayoutError};
use crate::module::{files, files_view, flat, paths, FileWrite, Module};

verus! {

/// A failure reported by the generation function.
pub struct GeneratorError {
    pub message: String,
}

impl GeneratorError {
    pub fn new(message: String) -> (r: GeneratorError)
        ensures
            r.message@ == message@,
    {
        GeneratorError { message }
    }
}

/// What the generation function is given: the schema text, the configured output path and
/// the generator's configuration block.
pub struct GenerateArgs {
    pub datamodel: String,
    pub output: String,
    pub config: serde_json::Value,
}

/// Why a generation did not produce a plan.
pub enum GenerateError {
    /// The layout does not fit the output path; the generation function was not called.
    Layout(LayoutError),
    /// The generation function failed.
    Generator(GeneratorError),
}

/// What a generation leaves to be done on disk: clear the output path, write the files in
/// order, then format the listed paths.
pub struct GenerationPlan {
    pub output: String,
    pub writes: Vec<FileWrite>,
    pub format_paths: Vec<String>,
}

#[verifier::external_type_specification]
#[verifier::external_body]
pub struct ExValue(serde_json::Value);

/// The header put before the text of every generated file.
pub open spec fn header_spec(name: Seq<char>) -> Seq<char> {
    "// File generated by "@ + name + ". DO NOT EDIT\n\n"@
}

/// The files written for `root` under `format` at `output`.
pub open spec fn planned_writes(root: Module, format: ClientFormat, output: Seq<char>, header: Seq<
    char,
>) -> Seq<(Seq<char>, Seq<char>)> {
    match format {
        ClientFormat::Folder => files(root, output, header),
        ClientFormat::File => seq![(output, header + flat(root))],
    }
}

/// The paths handed to the formatter for `root` under `format` at `output`.
pub open spec fn planned_format_paths(root: Module, format: ClientFormat, output: Seq<char>) -> Seq<
    Seq<char>,
> {
    match format {
        ClientFormat::Folder => paths(root, output),
        ClientFormat::File => seq![output],
    }
}

/// The plan is the one for `root` under `format` at `output`, from generator `name`.
pub open spec fn plan_is(
    plan: GenerationPlan,
    root: Module,
    format: ClientFormat,
    output: Seq<char>,
    name: Seq<char>,
) -> bool {
    &&& plan.output@ == output
    &&& files_view(plan.writes@) == planned_writes(root, format, output, header_spec(name))
    &&& plan.format_paths@.map_values(|s: String| s@) == planned_format_paths(root, format, output)
}

/// A generator: its generation function, its name and its default output path.
pub struct GeneratorMetadata<F> {
    pub generate_fn: F,
    pub name: &'static str,
    pub default_output: &'static str,
}

impl<F: Fn(GenerateArgs) -> Result<Module, GeneratorError>> GeneratorMetadata<F> {
    pub fn new(generate_fn: F, name: &'static str, default_output: &'static str) -> (r: Self)
        ensures
            r.generate_fn == generate_fn,
            r.name@ == name@,
            r.default_output@ == default_output@,
    {
        GeneratorMetadata { generate_fn, name, default_output }
    }

    /// `// File generated by <name>. DO NOT EDIT` and a blank line.
    pub fn header(&self) -> (r: String)
        ensures
            r@ == header_spec(self.name@),
    {
        let mut r = String::from_str("// File generated by ");
        r.append(self.name);
        r.append(". DO NOT EDIT\n\n");
        r
    }

    /// What to write for a generated tree: its directory tree, or one file with the whole
    /// tree flattened, and the paths to format afterwards.
    pub fn plan_output(&self, root: &Module, format: ClientFormat, output: &str) -> (r:
        GenerationPlan)
        ensures
            plan_is(r, *root, format, output@, self.name@),
    {
        let header = self.header();
        match format {
            ClientFormat::Folder => {
                let writes = root.materialize(output, header.as_str());
                let format_paths = root.get_all_paths(output);
                GenerationPlan { output: String::from_str(output), writes, format_paths }
            },
            ClientFormat::File => {
                let mut text = header;
                let body = root.flatten();
                text.append(body.as_str());
                let w = FileWrite { path: String::from_str(output), contents: text };
                let mut writes: Vec<FileWrite> = Vec::new();
                writes.push(w);
                let mut format_paths: Vec<String> = Vec::new();
                format_paths.push(String::from_str(output));
                assert(files_view(writes@) =~= planned_writes(
                    *root,
                    format,
                    output@,
                    header_spec(self.name@),
                ));
                assert(format_paths@.map_values(|s: String| s@) =~= planned_format_paths(
                    *root,
                    format,
                    output@,
                ));
                GenerationPlan { output: String::from_str(output), writes, format_paths }
            },
        }
    }

    /// Checks the layout against the output path, then runs the generation function and
    /// plans the output for the tree it returns. When the layout does not fit the output
    /// path the generation fails with that error, before the generation function is called.
    pub fn generate(&self, args: GenerateArgs, format: ClientFormat) -> (r: Result<
        GenerationPlan,
        GenerateError,
    >)
        requires
            call_requires(self.generate_fn, (args,)),
        ensures
            layout_check(format, has_extension_of(args.output@)) matches Err(e) ==> r matches Err(
                GenerateError::Layout(le),
            ) && le == e,
            layout_check(format, has_extension_of(args.output@)) is Ok ==> exists|res|
                call_ensures(self.generate_fn, (args,), res) && match res {
                    Ok(root) => r matches Ok(plan) && plan_is(
                        plan,
                        root,
                        format,
                        args.output@,
                        self.name@,
                    ),
                    Err(e) => r matches Err(GenerateError::Generator(ge)) && ge == e,
                },
    {
        let output = args.output.clone();
        match check_output_path(format, output.as_str()) {
            Err(e) => Err(GenerateError::Layout(e)),
            Ok(()) => {
                let res = (self.generate_fn)(args);
                match res {
                    Ok(root) => Ok(self.plan_output(&root, format, output.as_str())),
                    Err(e) => Err(GenerateError::Generator(e)),
                }
            },
        }
    }
}

} // verus!
