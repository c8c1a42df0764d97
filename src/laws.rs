use vstd::prelude::*;
use crate::text::hex_word_text;
use crate::naming::{guard_text, code_fn_text, size_fn_text, upper_snake_of, snake_of};
use crate::codegen::{word_separator, hex_list_text, banner_text, implementation_text};
use crate::paths::{comps, path_text, destination_dir_of, stem_of, is_under};
use crate::shader::{ShaderArtifacts, artifacts_for, header_name_of, implementation_name_of};
use crate::headers::{resolution, standard_not_found_message};

verus! {

/// The implementation file is its banner followed by a text that depends on
/// the shader's stem and binary alone: two runs on shaders of the same stem
/// and binary give the same file but for the source path in the banner, and
/// the very same file where the source path is the same too.
pub proof fn lemma_implementation_differs_only_in_banner(
    stem: Seq<char>,
    source_a: Seq<char>,
    source_b: Seq<char>,
    words: Seq<u32>,
)
    ensures
        ({
            let text_of = |s: Seq<char>|
                implementation_text(
                    banner_text(s),
                    header_name_of(stem),
                    code_fn_text(snake_of(stem)),
                    size_fn_text(snake_of(stem)),
                    hex_list_text(words),
                    (words.len() * 4) as nat,
                );
            &&& text_of(source_a).take(banner_text(source_a).len() as int) == banner_text(source_a)
            &&& text_of(source_a).skip(banner_text(source_a).len() as int) == text_of(source_b).skip(
                banner_text(source_b).len() as int,
            )
            &&& source_a == source_b ==> text_of(source_a) == text_of(source_b)
        }),
{
    let rest = |b: Seq<char>|
        implementation_text(
            b,
            header_name_of(stem),
            code_fn_text(snake_of(stem)),
            size_fn_text(snake_of(stem)),
            hex_list_text(words),
            (words.len() * 4) as nat,
        );
    let tail = rest(Seq::empty());
    let ba = banner_text(source_a);
    let bb = banner_text(source_b);
    assert(rest(ba) =~= ba + tail);
    assert(rest(bb) =~= bb + tail);
    assert((ba + tail).take(ba.len() as int) =~= ba);
    assert((ba + tail).skip(ba.len() as int) =~= tail);
    assert((bb + tail).skip(bb.len() as int) =~= tail);
}

/// Two runs on the same shader, under the same roots and with the same
/// binary, write the same files at the same places: what is written is
/// fixed by those inputs.
pub proof fn lemma_same_inputs_same_files(
    a: ShaderArtifacts,
    b: ShaderArtifacts,
    src_root: Seq<Seq<char>>,
    shader_root: Seq<Seq<char>>,
    file_path: Seq<Seq<char>>,
    words: Seq<u32>,
)
    requires
        artifacts_for(a, src_root, shader_root, file_path, words),
        artifacts_for(b, src_root, shader_root, file_path, words),
    ensures
        comps(a.header_path@) == comps(b.header_path@),
        comps(a.implementation_path@) == comps(b.implementation_path@),
        a.header@ == b.header@,
        a.implementation@ == b.implementation@,
{
}

/// The guard and both accessor names come from the shader's stem alone: equal
/// stems give equal names, and each name holds the cased stem at a fixed
/// place.
pub proof fn lemma_names_follow_stem(stem_a: Seq<char>, stem_b: Seq<char>)
    ensures
        stem_a == stem_b ==> guard_text(upper_snake_of(stem_a)) == guard_text(upper_snake_of(stem_b)),
        stem_a == stem_b ==> code_fn_text(snake_of(stem_a)) == code_fn_text(snake_of(stem_b)),
        stem_a == stem_b ==> size_fn_text(snake_of(stem_a)) == size_fn_text(snake_of(stem_b)),
        guard_text(upper_snake_of(stem_a)).subrange(21, 21 + upper_snake_of(stem_a).len() as int)
            == upper_snake_of(stem_a),
        code_fn_text(snake_of(stem_a)).subrange(10, 10 + snake_of(stem_a).len() as int) == snake_of(
            stem_a,
        ),
        size_fn_text(snake_of(stem_a)).subrange(7, 7 + snake_of(stem_a).len() as int) == snake_of(stem_a),
{
    reveal_strlit("___FFI_SHADER_HEADER_");
    reveal_strlit("uint32_t *");
    reveal_strlit("size_t ");
    let u = upper_snake_of(stem_a);
    let s = snake_of(stem_a);
    assert(guard_text(u).subrange(21, 21 + u.len() as int) =~= u);
    assert(code_fn_text(s).subrange(10, 10 + s.len() as int) =~= s);
    assert(size_fn_text(s).subrange(7, 7 + s.len() as int) =~= s);
}

/// The array of a binary of `n` words holds exactly `n` hexadecimal entries:
/// entry `i` stands at `14 * i`, ten characters long, and two entries are
/// parted by the four-character separator.
pub proof fn lemma_hex_list_entries(words: Seq<u32>)
    ensures
        words.len() == 0 ==> hex_list_text(words).len() == 0,
        words.len() > 0 ==> hex_list_text(words).len() == 14 * words.len() - 4,
        forall|i: int|
            0 <= i < words.len() ==> hex_list_text(words).subrange(14 * i, 14 * i + 10)
                == hex_word_text(#[trigger] words[i]),
        forall|i: int|
            0 <= i < words.len() - 1 ==> #[trigger] hex_list_text(words).subrange(
                14 * i + 10,
                14 * i + 14,
            ) == word_separator(),
    decreases words.len(),
{
    reveal_strlit("0x");
    reveal_strlit(",\n\t\t");
    let n = words.len();
    if n == 1 {
        assert(hex_list_text(words).subrange(0, 10) =~= hex_word_text(words[0]));
    } else if n > 1 {
        let front = words.drop_last();
        lemma_hex_list_entries(front);
        let t = hex_list_text(words);
        let f = hex_list_text(front);
        assert(t == f + word_separator() + hex_word_text(words.last()));
        assert forall|i: int| 0 <= i < n implies t.subrange(14 * i, 14 * i + 10) == hex_word_text(
            #[trigger] words[i],
        ) by {
            if i < n - 1 {
                assert(front[i] == words[i]);
                assert(t.subrange(14 * i, 14 * i + 10) =~= f.subrange(14 * i, 14 * i + 10));
            } else {
                assert(t.subrange(14 * i, 14 * i + 10) =~= hex_word_text(words.last()));
            }
        }
        assert forall|i: int| 0 <= i < n - 1 implies #[trigger] t.subrange(14 * i + 10, 14 * i + 14)
            == word_separator() by {
            if i < n - 2 {
                assert(t.subrange(14 * i + 10, 14 * i + 14) =~= f.subrange(14 * i + 10, 14 * i + 14));
            } else {
                assert(t.subrange(14 * i + 10, 14 * i + 14) =~= word_separator());
            }
        }
    }
}

/// Two shaders whose directories below the shader root differ get their
/// files in different places, whatever their stems: neither write reaches
/// the other's files.
pub proof fn lemma_distinct_directories_distinct_destinations(
    src_root: Seq<Seq<char>>,
    shader_root: Seq<Seq<char>>,
    file_a: Seq<Seq<char>>,
    file_b: Seq<Seq<char>>,
)
    requires
        file_a.len() > 0,
        file_b.len() > 0,
        is_under(file_a.drop_last(), shader_root),
        is_under(file_b.drop_last(), shader_root),
        file_a.drop_last() != file_b.drop_last(),
    ensures
        ({
            let k = shader_root.len() as int;
            let dir_a = destination_dir_of(src_root, file_a.drop_last().skip(k));
            let dir_b = destination_dir_of(src_root, file_b.drop_last().skip(k));
            &&& dir_a != dir_b
            &&& dir_a.push(header_name_of(stem_of(file_a.last()))) != dir_b.push(
                header_name_of(stem_of(file_b.last())),
            )
            &&& dir_a.push(implementation_name_of(stem_of(file_a.last()))) != dir_b.push(
                implementation_name_of(stem_of(file_b.last())),
            )
        }),
{
    let k = shader_root.len() as int;
    let pa = file_a.drop_last();
    let pb = file_b.drop_last();
    let ra = pa.skip(k);
    let rb = pb.skip(k);
    if ra == rb {
        assert(pa =~= shader_root + ra);
        assert(pb =~= shader_root + rb);
    }
    let pre = src_root + seq!["ffi"@, "generated"@];
    let dir_a = destination_dir_of(src_root, ra);
    let dir_b = destination_dir_of(src_root, rb);
    if dir_a == dir_b {
        assert(dir_a.skip(pre.len() as int) =~= ra);
        assert(dir_b.skip(pre.len() as int) =~= rb);
    }
    let ha = dir_a.push(header_name_of(stem_of(file_a.last())));
    let hb = dir_b.push(header_name_of(stem_of(file_b.last())));
    if ha == hb {
        assert(ha.drop_last() =~= dir_a);
        assert(hb.drop_last() =~= dir_b);
    }
    let ca = dir_a.push(implementation_name_of(stem_of(file_a.last())));
    let cb = dir_b.push(implementation_name_of(stem_of(file_b.last())));
    if ca == cb {
        assert(ca.drop_last() =~= dir_a);
        assert(cb.drop_last() =~= dir_b);
    }
}

/// A relative request for which both the file beside the asking file and
/// the one under the source root exist reads the former, and still names
/// the header by the latter.
pub proof fn lemma_relative_request_prefers_sibling(
    sibling: Seq<Seq<char>>,
    standard: Seq<Seq<char>>,
)
    ensures
        resolution(Some(sibling), standard, true, true) == Ok::<_, Seq<char>>(
            (sibling, path_text(standard)),
        ),
{
}

/// A standard request fails where nothing of that name is under the source
/// root, whatever exists elsewhere.
pub proof fn lemma_standard_request_needs_root_match(
    standard: Seq<Seq<char>>,
    elsewhere_is_file: bool,
)
    ensures
        resolution(None, standard, elsewhere_is_file, false) == Err::<(Seq<Seq<char>>, Seq<char>), _>(
            standard_not_found_message(),
        ),
{
}

} // verus!
