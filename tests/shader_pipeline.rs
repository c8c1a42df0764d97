use shader_ffi::codegen::{artifact_texts, code_size, hex_list};
use shader_ffi::error::Error;
use shader_ffi::headers::{choose_header, header_candidates, RequestKind};
use shader_ffi::naming::symbol_names;
use shader_ffi::paths::{is_plain_name, is_plain_path, display, display_relative, extension, relative_dir, same_text, stem};
use shader_ffi::shader::{
    compile_settings, find_shader_root, scan_steps, shader_artifacts, Dialect, EntryInfo, ScanStep,
};
use shader_ffi::text::{push_decimal, push_hex_word};

fn path(parts: &[&str]) -> Vec<String> {
    parts.iter().map(|p| p.to_string()).collect()
}

fn entry(name: &str, is_file: bool) -> EntryInfo {
    EntryInfo { name: name.to_string(), is_file, is_dir: !is_file }
}

#[test]
fn tonemap_with_sibling_header() {
    let src_root = path(&["proj", "src"]);
    let shader_root = path(&["proj", "src", "gpu"]);
    let file = path(&["proj", "src", "gpu", "post", "tonemap.glsl"]);

    let settings = compile_settings(&file).unwrap();
    assert_eq!(settings.dialect, Dialect::Glsl);
    assert_eq!(settings.macro_name, "___gpu___");
    assert_eq!(settings.entry_point, "main");

    let c = header_candidates(&src_root, &path(&["common.glsl"]), false, RequestKind::Relative, &file).unwrap();
    assert_eq!(c.relative, Some(path(&["proj", "src", "gpu", "post", "common.glsl"])));
    let h = choose_header(&c, true, false).unwrap();
    assert_eq!(h.read_path, path(&["proj", "src", "gpu", "post", "common.glsl"]));
    assert_eq!(h.resolved_name, "/proj/src/common.glsl");

    let a = shader_artifacts(&src_root, &shader_root, &file, &vec![0x0723_0203]).unwrap();
    assert_eq!(a.relative_dir, path(&["post"]));
    assert_eq!(a.header_path, path(&["proj", "src", "ffi", "generated", "post", "tonemap.h"]));
    assert_eq!(a.implementation_path, path(&["proj", "src", "ffi", "generated", "post", "tonemap.c"]));
    assert!(a.header.contains("#ifndef ___FFI_SHADER_HEADER_TONEMAP_H___\n"));
    assert!(a.header.contains("uint32_t *tonemap();"));
    assert!(a.header.contains("size_t tonemap_code_size();"));
    assert!(a.implementation.contains("size_t tonemap_code_size() {\n    return 4ULL;\n}\n"));
    assert!(a.implementation.contains(&format!("#{} \"tonemap.h\"\n", ["inc", "lude"].concat())));
}

#[test]
fn unknown_extension_is_a_shader_file_error() {
    let file = path(&["proj", "src", "gpu", "shader.txt"]);
    match compile_settings(&file) {
        Err(Error::ShaderFile(m)) => {
            assert_eq!(m, "the shader /proj/src/gpu/shader.txt has unknown extension txt")
        }
        _ => panic!("expected a shader-file error"),
    }
}

#[test]
fn missing_extension_is_a_shader_file_error() {
    let file = path(&["gpu", "shader"]);
    match compile_settings(&file) {
        Err(Error::ShaderFile(m)) => assert_eq!(m, "the shader /gpu/shader has no extension"),
        _ => panic!("expected a shader-file error"),
    }
    let hidden = path(&["gpu", ".glsl"]);
    assert!(matches!(compile_settings(&hidden), Err(Error::ShaderFile(_))));
}

#[test]
fn hlsl_extension_selects_hlsl() {
    let s = compile_settings(&path(&["gpu", "blur.hlsl"])).unwrap();
    assert_eq!(s.dialect, Dialect::Hlsl);
}

#[test]
fn empty_shader_root_gives_nothing_to_do() {
    assert!(scan_steps(&Vec::new()).is_empty());
    let top = vec![entry("main.rs", true), entry("gpu", false)];
    assert_eq!(find_shader_root(&top), Some(1));
}

#[test]
fn shader_root_is_first_directory_named_gpu() {
    let top = vec![entry("gpu", true), entry("ffi", false), entry("gpu", false), entry("gpu", false)];
    assert_eq!(find_shader_root(&top), Some(2));
    assert_eq!(find_shader_root(&vec![entry("shaders", false)]), None);
}

#[test]
fn scan_walks_directories_and_compiles_the_rest() {
    let entries = vec![entry("a.glsl", true), entry("post", false), entry("notes.txt", true)];
    assert_eq!(scan_steps(&entries), vec![ScanStep::Compile, ScanStep::Descend, ScanStep::Compile]);
}

#[test]
fn same_stem_in_two_directories_gets_two_destinations() {
    let src_root = path(&["p"]);
    let root = path(&["p", "gpu"]);
    let a = shader_artifacts(&src_root, &root, &path(&["p", "gpu", "a", "blur.glsl"]), &vec![1]).unwrap();
    let b = shader_artifacts(&src_root, &root, &path(&["p", "gpu", "b", "blur.glsl"]), &vec![1]).unwrap();
    assert_ne!(a.header_path, b.header_path);
    assert_ne!(a.implementation_path, b.implementation_path);
    assert_eq!(a.header_path, path(&["p", "ffi", "generated", "a", "blur.h"]));
}

#[test]
fn shader_in_root_itself_goes_to_generated_dir() {
    let a = shader_artifacts(&path(&["p"]), &path(&["p", "gpu"]), &path(&["p", "gpu", "sky.glsl"]), &vec![]).unwrap();
    assert!(a.relative_dir.is_empty());
    assert_eq!(a.dir, path(&["p", "ffi", "generated"]));
}

#[test]
fn relative_request_prefers_sibling_file() {
    let root = path(&["p"]);
    let file = path(&["p", "gpu", "x.glsl"]);
    let c = header_candidates(&root, &path(&["lib", "c.glsl"]), false, RequestKind::Relative, &file).unwrap();
    let h = choose_header(&c, true, true).unwrap();
    assert_eq!(h.read_path, path(&["p", "gpu", "lib", "c.glsl"]));
    assert_eq!(h.resolved_name, "/p/lib/c.glsl");
    let h = choose_header(&c, false, true).unwrap();
    assert_eq!(h.read_path, path(&["p", "lib", "c.glsl"]));
    assert_eq!(choose_header(&c, false, false).err().unwrap(), "relative header path is not found");
}

#[test]
fn standard_request_needs_file_under_source_root() {
    let root = path(&["p"]);
    let file = path(&["p", "gpu", "x.glsl"]);
    let c = header_candidates(&root, &path(&["c.glsl"]), false, RequestKind::Standard, &file).unwrap();
    assert!(c.relative.is_none());
    assert_eq!(choose_header(&c, true, false).err().unwrap(), "standard header path is not found");
    assert_eq!(choose_header(&c, false, true).unwrap().read_path, path(&["p", "c.glsl"]));
}

#[test]
fn relative_request_without_parent_fails() {
    let r = header_candidates(&path(&["p"]), &path(&["a", "b.glsl"]), false, RequestKind::Relative, &Vec::new());
    assert_eq!(r.err().unwrap(), "a/b.glsl: expected parent path");
}

#[test]
fn hex_words_are_ten_characters() {
    let mut s = String::new();
    push_hex_word(&mut s, 0x0723_0203);
    assert_eq!(s, "0x07230203");
    let mut s = String::new();
    push_hex_word(&mut s, 0xDEAD_BEEF);
    assert_eq!(s, format!("{:#010X}", 0xDEAD_BEEFu32));
    assert_eq!(hex_list(&vec![0, 0xAB]), "0x00000000,\n\t\t0x000000AB");
    assert_eq!(hex_list(&vec![]), "");
}

#[test]
fn array_has_one_entry_per_word() {
    let words: Vec<u32> = (0..7).collect();
    let list = hex_list(&words);
    assert_eq!(list.matches("0x").count(), 7);
    assert_eq!(list.len(), 14 * 7 - 4);
}

#[test]
fn decimal_and_code_size() {
    let mut s = String::new();
    push_decimal(&mut s, 1234567890);
    assert_eq!(s, "1234567890");
    let mut z = String::new();
    push_decimal(&mut z, 0);
    assert_eq!(z, "0");
    assert_eq!(code_size(5), 20);
    assert_eq!(code_size(0), 0);
}

#[test]
fn generated_texts_are_exact() {
    let t = artifact_texts("Tone Map", "/s/gpu/tone.glsl", "tone.h", &vec![1, 2]);
    let banner = "// This file generated automatically.\n// DO NOT MODIFY IT MANUALLY!\n// Original shader source path: file:////s/gpu/tone.glsl";
    let header = format!(
        "{banner}\n\n#ifndef ___FFI_SHADER_HEADER_TONE_MAP_H___\n#define ___FFI_SHADER_HEADER_TONE_MAP_H___\n\n#{d} <stdint.h>\n\nuint32_t *tone_map();\n\nsize_t tone_map_code_size();\n\n#endif // ___FFI_SHADER_HEADER_TONE_MAP_H___",
        d = ["inc", "lude"].concat()
    );
    assert_eq!(t.header, header);
    let implementation = format!(
        "{banner}\n\n#{d} \"tone.h\"\n\nuint32_t *tone_map() {{\n    static uint32_t shader_src[] = {{\n        0x00000001,\n\t\t0x00000002\n    }};\n\n    return shader_src;\n}}\n\nsize_t tone_map_code_size() {{\n    return 8ULL;\n}}\n",
        d = ["inc", "lude"].concat()
    );
    assert_eq!(t.implementation, implementation);
}

#[test]
fn regenerating_changes_only_the_banner() {
    let a = artifact_texts("blur", "/one/blur.glsl", "blur.h", &vec![9, 8, 7]);
    let b = artifact_texts("blur", "/other/place/blur.glsl", "blur.h", &vec![9, 8, 7]);
    let c = artifact_texts("blur", "/one/blur.glsl", "blur.h", &vec![9, 8, 7]);
    assert_eq!(a.implementation, c.implementation);
    let tail_a = a.implementation.split_once("blur.glsl").unwrap().1;
    let tail_b = b.implementation.split_once("blur.glsl").unwrap().1;
    assert_eq!(tail_a, tail_b);
}

#[test]
fn symbol_names_follow_the_stem() {
    let n = symbol_names("postFxBlur");
    assert_eq!(n.guard, "___FFI_SHADER_HEADER_POST_FX_BLUR_H___");
    assert_eq!(n.code_fn, "uint32_t *post_fx_blur()");
    assert_eq!(n.size_fn, "size_t post_fx_blur_code_size()");
    let m = symbol_names("postFxBlur");
    assert_eq!(n.guard, m.guard);
}

#[test]
fn file_name_parts() {
    assert_eq!(extension("a.b.glsl"), Some("glsl".to_string()));
    assert_eq!(stem("a.b.glsl"), "a.b");
    assert_eq!(extension(".hidden"), None);
    assert_eq!(stem(".hidden"), ".hidden");
    assert_eq!(extension("trailing."), Some(String::new()));
    assert!(same_text("gpu", "gpu"));
    assert!(!same_text("gpu", "gpus"));
}

#[test]
fn path_texts() {
    assert_eq!(display(&path(&["a", "b"])), "/a/b");
    assert_eq!(display_relative(&path(&["a", "b"])), "a/b");
    assert_eq!(relative_dir(&path(&["r"]), &path(&["r", "x", "y", "f.glsl"])), Some(path(&["x", "y"])));
}

#[test]
fn unusable_shader_paths_are_shader_file_errors() {
    let root = path(&["p", "gpu"]);
    match shader_artifacts(&path(&["p"]), &root, &Vec::new(), &vec![1]) {
        Err(Error::ShaderFile(m)) => assert_eq!(m, "unable to get shader parent dir"),
        _ => panic!("expected a shader-file error"),
    }
    match shader_artifacts(&path(&["p"]), &root, &path(&["p", "gpu", "..", "a.glsl"]), &vec![1]) {
        Err(Error::ShaderFile(m)) => assert_eq!(m, "unable to get shader relative path"),
        _ => panic!("expected a shader-file error"),
    }
}

#[test]
fn plain_names() {
    assert!(is_plain_name("tonemap.glsl"));
    assert!(!is_plain_name(""));
    assert!(!is_plain_name(".."));
    assert!(!is_plain_name("."));
    assert!(!is_plain_name("a/b"));
    assert!(is_plain_path(&path(&["a", ".b"])));
    assert!(!is_plain_path(&path(&["a", "x\\y"])));
    assert!(!is_plain_name("a:b"));
}

#[test]
fn dotted_stem_keeps_its_dots() {
    let root = path(&["p", "gpu"]);
    let a = shader_artifacts(&path(&["p"]), &root, &path(&["p", "gpu", "a.b.glsl"]), &vec![1]).unwrap();
    let b = shader_artifacts(&path(&["p"]), &root, &path(&["p", "gpu", "a.c.glsl"]), &vec![1]).unwrap();
    assert_eq!(a.header_path, path(&["p", "ffi", "generated", "a.b.h"]));
    assert_eq!(a.implementation_path, path(&["p", "ffi", "generated", "a.b.c"]));
    assert_ne!(a.header_path, b.header_path);
}

#[test]
fn shader_outside_root_is_a_shader_file_error() {
    let root = path(&["p", "gpu"]);
    match shader_artifacts(&path(&["p"]), &root, &path(&["p", "other", "a.glsl"]), &vec![1]) {
        Err(Error::ShaderFile(m)) => assert_eq!(m, "unable to get shader relative path"),
        _ => panic!("expected a shader-file error"),
    }
    match shader_artifacts(&path(&["p"]), &root, &path(&["p", "gpu"]), &vec![1]) {
        Err(Error::ShaderFile(m)) => assert_eq!(m, "unable to get shader relative path"),
        _ => panic!("expected a shader-file error"),
    }
}

#[test]
fn same_inputs_give_same_files() {
    let root = path(&["p", "gpu"]);
    let f = path(&["p", "gpu", "x", "blur.glsl"]);
    let a = shader_artifacts(&path(&["p"]), &root, &f, &vec![3, 4]).unwrap();
    let b = shader_artifacts(&path(&["p"]), &root, &f, &vec![3, 4]).unwrap();
    assert_eq!(a.header, b.header);
    assert_eq!(a.implementation, b.implementation);
    assert_eq!(a.header_path, b.header_path);
}

#[test]
fn empty_path_has_no_extension() {
    match compile_settings(&Vec::new()) {
        Err(Error::ShaderFile(m)) => assert_eq!(m, "the shader  has no extension"),
        _ => panic!("expected a shader-file error"),
    }
}

#[test]
fn absolute_and_dotted_requests() {
    let root = path(&["p"]);
    let file = path(&["p", "gpu", "post", "x.glsl"]);
    let c = header_candidates(&root, &path(&["q", "c.glsl"]), true, RequestKind::Relative, &file).unwrap();
    assert_eq!(c.standard, path(&["q", "c.glsl"]));
    assert_eq!(c.relative, Some(path(&["q", "c.glsl"])));
    assert_eq!(choose_header(&c, false, true).unwrap().resolved_name, "/q/c.glsl");
    let d = header_candidates(&root, &path(&["..", "common", "c.glsl"]), false, RequestKind::Relative, &file).unwrap();
    assert_eq!(d.relative, Some(path(&["p", "gpu", "post", "..", "common", "c.glsl"])));
    let e = header_candidates(&root, &path(&["c.glsl"]), true, RequestKind::Relative, &Vec::new());
    assert_eq!(e.err().unwrap(), "/c.glsl: expected parent path");
}
