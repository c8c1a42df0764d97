use vstd::prelude::*;
use vstd::string::StringExecFns;
use convert_case::{Case, Casing};

verus! {

/// What convert_case makes of a text in upper snake case (`MY_SHADER`).
pub uninterp spec fn upper_snake_of(s: Seq<char>) -> Seq<char>;

/// What convert_case makes of a text in lower snake case (`my_shader`).
pub uninterp spec fn snake_of(s: Seq<char>) -> Seq<char>;

/// Relies on convert_case's `Casing::to_case` with `Case::UpperSnake`: the
/// result depends on the text alone.
#[verifier::external_body]
fn to_upper_snake(s: &str) -> (r: String)
    ensures
        r@ == upper_snake_of(s@),
{
    s.to_case(Case::UpperSnake)
}

/// Relies on convert_case's `Casing::to_case` with `Case::Snake`: the result
/// depends on the text alone.
#[verifier::external_body]
fn to_snake(s: &str) -> (r: String)
    ensures
        r@ == snake_of(s@),
{
    s.to_case(Case::Snake)
}

/// The names that the generated files use for one shader.
pub struct SymbolNames {
    /// The header's guard macro.
    pub guard: String,
    /// The declaration of the accessor of the binary's words.
    pub code_fn: String,
    /// The declaration of the accessor of the binary's size in bytes.
    pub size_fn: String,
}

/// The header guard for a stem in upper snake case.
pub open spec fn guard_text(upper: Seq<char>) -> Seq<char> {
    "___FFI_SHADER_HEADER_"@ + upper + "_H___"@
}

/// The declaration of the accessor of the binary's words.
pub open spec fn code_fn_text(snake: Seq<char>) -> Seq<char> {
    "uint32_t *"@ + snake + "()"@
}

/// The declaration of the accessor of the binary's size in bytes.
pub open spec fn size_fn_text(snake: Seq<char>) -> Seq<char> {
    "size_t "@ + snake + "_code_size()"@
}

/// The symbol names of a shader, from its stem already in upper and in lower
/// snake case.
pub fn symbol_names_from(upper: &str, snake: &str) -> (r: SymbolNames)
    ensures
        r.guard@ == guard_text(upper@),
        r.code_fn@ == code_fn_text(snake@),
        r.size_fn@ == size_fn_text(snake@),
{
    let mut guard = String::from_str("___FFI_SHADER_HEADER_");
    guard.append(upper);
    guard.append("_H___");
    let mut code_fn = String::from_str("uint32_t *");
    code_fn.append(snake);
    code_fn.append("()");
    let mut size_fn = String::from_str("size_t ");
    size_fn.append(snake);
    size_fn.append("_code_size()");
    SymbolNames { guard, code_fn, size_fn }
}

/// The symbol names of the shader whose file stem is `stem`.
pub fn symbol_names(stem: &str) -> (r: SymbolNames)
    ensures
        r.guard@ == guard_text(upper_snake_of(stem@)),
        r.code_fn@ == code_fn_text(snake_of(stem@)),
        r.size_fn@ == size_fn_text(snake_of(stem@)),
{
    let upper = to_upper_snake(stem);
    let snake = to_snake(stem);
    symbol_names_from(upper.as_str(), snake.as_str())
}

} // verus!
