use vstd::prelude::*;
use vstd::string::StringExecFns;
use crate::naming::{SymbolNames, symbol_names, guard_text, code_fn_text, size_fn_text, upper_snake_of, snake_of};
use crate::text::{hex_word_text, decimal_text, push_hex_word, push_decimal};

verus! {

/// Separator between two words of the binary in the generated array.
pub open spec fn word_separator() -> Seq<char> {
    ",\n\t\t"@
}

/// The words of a binary as hexadecimal literals, in order, separated by
/// `word_separator()`.
pub open spec fn hex_list_text(ws: Seq<u32>) -> Seq<char>
    decreases ws.len(),
{
    if ws.len() == 0 {
        Seq::empty()
    } else if ws.len() == 1 {
        hex_word_text(ws[0])
    } else {
        hex_list_text(ws.drop_last()) + word_separator() + hex_word_text(ws.last())
    }
}

/// The banner at the top of both generated files, naming the source file.
pub open spec fn banner_text(source_path: Seq<char>) -> Seq<char> {
    "// This file generated automatically.\n// DO NOT MODIFY IT MANUALLY!\n// Original shader source path: file:///"@
        + source_path
}

/// The generated header.
pub open spec fn header_text(
    banner: Seq<char>,
    guard: Seq<char>,
    code_fn: Seq<char>,
    size_fn: Seq<char>,
) -> Seq<char> {
    banner + "\n\n#ifndef "@ + guard + "\n#define "@ + guard + "\n\n#inc"@ + "lude <stdint.h>\n\n"@
        + code_fn + ";\n\n"@ + size_fn + ";\n\n#endif // "@ + guard
}

/// The generated implementation: it pulls in the header by `header_name`,
/// its name relative to the implementation's own directory, and defines
/// both accessors.
pub open spec fn implementation_text(
    banner: Seq<char>,
    header_name: Seq<char>,
    code_fn: Seq<char>,
    size_fn: Seq<char>,
    hex_list: Seq<char>,
    code_size: nat,
) -> Seq<char> {
    banner + "\n\n#inc"@ + "lude \""@ + header_name + "\"\n\n"@ + code_fn
        + " {\n    static uint32_t shader_src[] = {\n        "@ + hex_list
        + "\n    };\n\n    return shader_src;\n}\n\n"@ + size_fn + " {\n    return "@
        + decimal_text(code_size) + "ULL;\n}\n"@
}

/// The two generated files of one shader.
pub struct ArtifactTexts {
    pub header: String,
    pub implementation: String,
}

/// Size in bytes of a binary of `n_words` words.
pub fn code_size(n_words: usize) -> (r: u64)
    requires
        n_words * 4 <= u64::MAX,
    ensures
        r == n_words * 4,
{
    (n_words as u64) * 4
}

/// `hex_list_text(words@)`.
pub fn hex_list(words: &Vec<u32>) -> (r: String)
    ensures
        r@ == hex_list_text(words@),
{
    let mut s = String::new();
    let mut i: usize = 0;
    while i < words.len()
        invariant
            0 <= i <= words.len(),
            s@ == hex_list_text(words@.take(i as int)),
        decreases words.len() - i,
    {
        let ghost before = words@.take(i as int);
        if i > 0 {
            s.append(",\n\t\t");
        }
        push_hex_word(&mut s, words[i]);
        i = i + 1;
        proof {
            let now = words@.take(i as int);
            assert(now.drop_last() =~= before);
            assert(now.last() == words@[i - 1]);
            if i == 1 {
                assert(before.len() == 0);
                assert(s@ =~= hex_word_text(now[0]));
            }
        }
    }
    assert(words@.take(words.len() as int) =~= words@);
    s
}

/// Both generated files, from the shader's symbol names.
pub fn artifact_texts_from(
    names: &SymbolNames,
    source_path: &str,
    header_name: &str,
    words: &Vec<u32>,
) -> (r: ArtifactTexts)
    requires
        words.len() * 4 <= u64::MAX,
    ensures
        r.header@ == header_text(
            banner_text(source_path@),
            names.guard@,
            names.code_fn@,
            names.size_fn@,
        ),
        r.implementation@ == implementation_text(
            banner_text(source_path@),
            header_name@,
            names.code_fn@,
            names.size_fn@,
            hex_list_text(words@),
            (words.len() * 4) as nat,
        ),
{
    let mut banner = String::from_str(
        "// This file generated automatically.\n// DO NOT MODIFY IT MANUALLY!\n// Original shader source path: file:///",
    );
    banner.append(source_path);

    let mut header = banner.clone();
    header.append("\n\n#ifndef ");
    header.append(names.guard.as_str());
    header.append("\n#define ");
    header.append(names.guard.as_str());
    header.append("\n\n#inc");
    header.append("lude <stdint.h>\n\n");
    header.append(names.code_fn.as_str());
    header.append(";\n\n");
    header.append(names.size_fn.as_str());
    header.append(";\n\n#endif // ");
    header.append(names.guard.as_str());

    let hex = hex_list(words);
    let size = code_size(words.len());
    let mut implementation = banner;
    implementation.append("\n\n#inc");
    implementation.append("lude \"");
    implementation.append(header_name);
    implementation.append("\"\n\n");
    implementation.append(names.code_fn.as_str());
    implementation.append(" {\n    static uint32_t shader_src[] = {\n        ");
    implementation.append(hex.as_str());
    implementation.append("\n    };\n\n    return shader_src;\n}\n\n");
    implementation.append(names.size_fn.as_str());
    implementation.append(" {\n    return ");
    push_decimal(&mut implementation, size);
    implementation.append("ULL;\n}\n");
    ArtifactTexts { header, implementation }
}

/// Both generated files of the shader whose file stem is `stem`, read from
/// `source_path`, whose header is written beside the implementation as
/// `header_name`.
pub fn artifact_texts(stem: &str, source_path: &str, header_name: &str, words: &Vec<u32>) -> (r:
    ArtifactTexts)
    requires
        words.len() * 4 <= u64::MAX,
    ensures
        r.header@ == header_text(
            banner_text(source_path@),
            guard_text(upper_snake_of(stem@)),
            code_fn_text(snake_of(stem@)),
            size_fn_text(snake_of(stem@)),
        ),
        r.implementation@ == implementation_text(
            banner_text(source_path@),
            header_name@,
            code_fn_text(snake_of(stem@)),
            size_fn_text(snake_of(stem@)),
            hex_list_text(words@),
            (words.len() * 4) as nat,
        ),
{
    let names = symbol_names(stem);
    artifact_texts_from(&names, source_path, header_name, words)
}

} // verus!
