use vstd::prelude::*;
use vstd::string::StringExecFns;
use crate::error::Error;
use crate::paths::{
    comps, all_normal, path_text, extension_of, stem_of, destination_dir_of, is_under, extension,
    stem, display, relative_dir, destination_dir, same_text, is_plain_path, parent_is_under,
};
use crate::naming::{guard_text, code_fn_text, size_fn_text, upper_snake_of, snake_of};
use crate::codegen::{header_text, implementation_text, banner_text, hex_list_text, artifact_texts};

verus! {

/// Name of the directory that holds the shader sources.
pub const SHADER_DIR_NAME: &'static str = "gpu";

/// Macro defined for every shader that this pipeline compiles.
pub const SHADER_MACRO: &'static str = "___gpu___";

/// Entry point of every shader.
pub const ENTRY_POINT: &'static str = "main";

/// The source language of a shader.
#[derive(PartialEq, Eq, Structural, Clone, Copy, Debug)]
pub enum Dialect {
    Glsl,
    Hlsl,
}

/// The dialect that a file extension selects.
pub open spec fn dialect_of(ext: Seq<char>) -> Option<Dialect> {
    if ext == "glsl"@ {
        Some(Dialect::Glsl)
    } else if ext == "hlsl"@ {
        Some(Dialect::Hlsl)
    } else {
        None
    }
}

/// The error for a shader file with an extension that selects no dialect.
pub open spec fn unknown_extension_message(path: Seq<char>, ext: Seq<char>) -> Seq<char> {
    "the shader "@ + path + " has unknown extension "@ + ext
}

/// The error for a shader file without an extension.
pub open spec fn no_extension_message(path: Seq<char>) -> Seq<char> {
    "the shader "@ + path + " has no extension"@
}

/// The error for an empty shader path.
pub open spec fn no_parent_dir_message() -> Seq<char> {
    "unable to get shader parent dir"@
}

/// The error for a shader with no path relative to the shader root.
pub open spec fn no_relative_path_message() -> Seq<char> {
    "unable to get shader relative path"@
}

/// The settings that one shader is compiled with.
pub struct CompileSettings {
    pub dialect: Dialect,
    /// The macro defined before compiling.
    pub macro_name: String,
    /// The name of the entry point.
    pub entry_point: String,
}

/// The settings for the shader file at `file_path`, or the error that its
/// extension gives: the extension `glsl` selects GLSL, `hlsl` HLSL, and any
/// other, or none, is a shader-file error naming the file. An empty path has
/// no extension.
pub fn compile_settings(file_path: &Vec<String>) -> (r: Result<CompileSettings, Error>)
    ensures
        file_path@.len() == 0 ==> (r matches Err(Error::ShaderFile(m)) && m@ == no_extension_message(
            path_text(comps(file_path@)),
        )),
        file_path@.len() > 0 ==> ({
            let path = path_text(comps(file_path@));
            match extension_of(file_path@.last()@) {
                None => r matches Err(Error::ShaderFile(m)) && m@ == no_extension_message(path),
                Some(ext) => match dialect_of(ext) {
                    None => r matches Err(Error::ShaderFile(m)) && m@ == unknown_extension_message(
                        path,
                        ext,
                    ),
                    Some(d) => r matches Ok(s) && s.dialect == d && s.macro_name@ == SHADER_MACRO@
                        && s.entry_point@ == ENTRY_POINT@,
                },
            }
        }),
{
    let path = display(file_path);
    if file_path.len() == 0 {
        let mut m = String::from_str("the shader ");
        m.append(path.as_str());
        m.append(" has no extension");
        return Err(Error::ShaderFile(m));
    }
    let name = file_path[file_path.len() - 1].as_str();
    match extension(name) {
        None => {
            let mut m = String::from_str("the shader ");
            m.append(path.as_str());
            m.append(" has no extension");
            Err(Error::ShaderFile(m))
        },
        Some(ext) => {
            let dialect = if same_text(ext.as_str(), "glsl") {
                Dialect::Glsl
            } else if same_text(ext.as_str(), "hlsl") {
                Dialect::Hlsl
            } else {
                let mut m = String::from_str("the shader ");
                m.append(path.as_str());
                m.append(" has unknown extension ");
                m.append(ext.as_str());
                return Err(Error::ShaderFile(m));
            };
            Ok(
                CompileSettings {
                    dialect,
                    macro_name: String::from_str(SHADER_MACRO),
                    entry_point: String::from_str(ENTRY_POINT),
                },
            )
        },
    }
}

/// Where and what the pipeline writes for one compiled shader.
pub struct ShaderArtifacts {
    /// The shader's directory relative to the shader root.
    pub relative_dir: Vec<String>,
    /// The directory that receives both files.
    pub dir: Vec<String>,
    pub header_path: Vec<String>,
    pub implementation_path: Vec<String>,
    pub header: String,
    pub implementation: String,
}

/// The name of the header of the shader whose file stem is `file_stem`.
pub open spec fn header_name_of(file_stem: Seq<char>) -> Seq<char> {
    file_stem + ".h"@
}

/// The name of the implementation of the shader whose file stem is
/// `file_stem`.
pub open spec fn implementation_name_of(file_stem: Seq<char>) -> Seq<char> {
    file_stem + ".c"@
}

/// `a` is what the pipeline writes for the shader at `file_path`, under the
/// shader root `shader_root`, with the binary `words`: both files go to the
/// directory under `src_root` that mirrors the shader's own below the shader
/// root, named after the shader's stem, and the implementation pulls in the
/// header by its bare name.
pub open spec fn artifacts_for(
    a: ShaderArtifacts,
    src_root: Seq<Seq<char>>,
    shader_root: Seq<Seq<char>>,
    file_path: Seq<Seq<char>>,
    words: Seq<u32>,
) -> bool {
    let file_stem = stem_of(file_path.last());
    let rel = file_path.drop_last().skip(shader_root.len() as int);
    let dir = destination_dir_of(src_root, rel);
    &&& comps(a.relative_dir@) == rel
    &&& comps(a.dir@) == dir
    &&& comps(a.header_path@) == dir.push(header_name_of(file_stem))
    &&& comps(a.implementation_path@) == dir.push(implementation_name_of(file_stem))
    &&& a.header@ == header_text(
        banner_text(path_text(file_path)),
        guard_text(upper_snake_of(file_stem)),
        code_fn_text(snake_of(file_stem)),
        size_fn_text(snake_of(file_stem)),
    )
    &&& a.implementation@ == implementation_text(
        banner_text(path_text(file_path)),
        header_name_of(file_stem),
        code_fn_text(snake_of(file_stem)),
        size_fn_text(snake_of(file_stem)),
        hex_list_text(words),
        (words.len() * 4) as nat,
    )
}

/// The files generated for the shader at `file_path`, found under the shader
/// root `shader_root`, whose compiled binary is `words`; they go under the
/// project's source root `src_root`. A path that is empty, that has a
/// component which is not a plain name, or whose directory is not under the
/// shader root, is a shader-file error.
pub fn shader_artifacts(
    src_root: &Vec<String>,
    shader_root: &Vec<String>,
    file_path: &Vec<String>,
    words: &Vec<u32>,
) -> (r: Result<ShaderArtifacts, Error>)
    requires
        words.len() * 4 <= u64::MAX,
    ensures
        file_path@.len() == 0 ==> (r matches Err(Error::ShaderFile(m)) && m@
            == no_parent_dir_message()),
        file_path@.len() > 0 && !(all_normal(comps(shader_root@)) && all_normal(comps(file_path@))
            && is_under(comps(file_path@).drop_last(), comps(shader_root@))) ==> (r matches Err(
            Error::ShaderFile(m),
        ) && m@ == no_relative_path_message()),
        file_path@.len() > 0 && all_normal(comps(shader_root@)) && all_normal(comps(file_path@))
            && is_under(comps(file_path@).drop_last(), comps(shader_root@)) ==> (r matches Ok(a)
            && artifacts_for(a, comps(src_root@), comps(shader_root@), comps(file_path@), words@)),
{
    if file_path.len() == 0 {
        return Err(Error::ShaderFile(String::from_str("unable to get shader parent dir")));
    }
    if !is_plain_path(shader_root) || !is_plain_path(file_path) || !parent_is_under(
        file_path,
        shader_root,
    ) {
        return Err(Error::ShaderFile(String::from_str("unable to get shader relative path")));
    }
    let rel = match relative_dir(shader_root, file_path) {
        Some(rel) => rel,
        None => {
            return Err(Error::ShaderFile(String::from_str("unable to get shader relative path")));
        },
    };
    let file_stem = stem(file_path[file_path.len() - 1].as_str());
    let dir = destination_dir(src_root, &rel);
    let mut header_name = file_stem.clone();
    header_name.append(".h");
    let mut implementation_name = file_stem.clone();
    implementation_name.append(".c");
    let mut header_path = dir.clone();
    header_path.push(header_name.clone());
    let mut implementation_path = dir.clone();
    implementation_path.push(implementation_name);
    assert(comps(header_path@) =~= comps(dir@).push(header_name_of(stem_of(file_path@.last()@))));
    assert(comps(implementation_path@) =~= comps(dir@).push(
        implementation_name_of(stem_of(file_path@.last()@)),
    ));
    let source_text = display(file_path);
    let texts = artifact_texts(file_stem.as_str(), source_text.as_str(), header_name.as_str(), words);
    Ok(
        ShaderArtifacts {
            relative_dir: rel,
            dir,
            header_path,
            implementation_path,
            header: texts.header,
            implementation: texts.implementation,
        },
    )
}

/// What the directory scan sees of one directory entry.
pub struct EntryInfo {
    /// The entry's file name.
    pub name: String,
    pub is_file: bool,
    pub is_dir: bool,
}

/// An entry that is taken for the shader root: not a plain file, named
/// `SHADER_DIR_NAME`.
pub open spec fn is_shader_root(e: EntryInfo) -> bool {
    !e.is_file && e.name@ == SHADER_DIR_NAME@
}

/// The position of the first entry, in listing order, that is the shader
/// root, or `None` where no entry is.
pub fn find_shader_root(entries: &Vec<EntryInfo>) -> (r: Option<usize>)
    ensures
        match r {
            Some(i) => i < entries@.len() && is_shader_root(entries@[i as int]) && forall|j: int|
                0 <= j < i ==> !is_shader_root(#[trigger] entries@[j]),
            None => forall|j: int| 0 <= j < entries@.len() ==> !is_shader_root(#[trigger] entries@[j]),
        },
{
    let mut i: usize = 0;
    while i < entries.len()
        invariant
            0 <= i <= entries.len(),
            forall|j: int| 0 <= j < i ==> !is_shader_root(#[trigger] entries@[j]),
        decreases entries.len() - i,
    {
        let e = &entries[i];
        if !e.is_file && same_text(e.name.as_str(), SHADER_DIR_NAME) {
            return Some(i);
        }
        i = i + 1;
    }
    None
}

/// What the scan does with one entry below the shader root.
#[derive(PartialEq, Eq, Structural, Clone, Copy, Debug)]
pub enum ScanStep {
    /// Walk the directory.
    Descend,
    /// Compile the file.
    Compile,
}

/// The steps for the entries of a directory below the shader root, in
/// order: each directory is walked, every other entry is compiled, whatever
/// its extension.
pub fn scan_steps(entries: &Vec<EntryInfo>) -> (r: Vec<ScanStep>)
    ensures
        r@.len() == entries@.len(),
        forall|i: int|
            0 <= i < r@.len() ==> #[trigger] r@[i] == (if entries@[i].is_dir {
                ScanStep::Descend
            } else {
                ScanStep::Compile
            }),
{
    let mut r: Vec<ScanStep> = Vec::new();
    let mut i: usize = 0;
    while i < entries.len()
        invariant
            0 <= i <= entries.len(),
            r@.len() == i,
            forall|k: int|
                0 <= k < i ==> #[trigger] r@[k] == (if entries@[k].is_dir {
                    ScanStep::Descend
                } else {
                    ScanStep::Compile
                }),
        decreases entries.len() - i,
    {
        if entries[i].is_dir {
            r.push(ScanStep::Descend);
        } else {
            r.push(ScanStep::Compile);
        }
        i = i + 1;
    }
    r
}

} // verus!
