//! File names in `Content-Disposition` values: giving them the extension of
//! the format that the body now has.
//!
//! A value is a list of parameters separated by `"; "`. A parameter that
//! starts with `filename=` or `filename*=` carries a file name: plain or in
//! double quotes after `filename=`, plain after `filename*=UTF-8''`. Only the
//! extension of that name changes; everything else stays where it is.

use vstd::prelude::*;
use crate::text::{
    has_prefix,
    join_strings,
    joined,
    option_text,
    split_by,
    split_text,
    starts_with,
    strings_view,
};

verus! {

/// A character that parts a directory from what is in it.
pub open spec fn is_separator(c: char) -> bool {
    c == '/' || c == '\\'
}

/// The position of the `.` that starts the extension of `name`, or -1 where
/// the name has no extension. The `.` must stand after the last separator
/// and must not be the first character of the file name.
pub open spec fn extension_dot(name: Seq<char>) -> int
    decreases name.len(),
{
    if name.len() == 0 {
        -1
    } else if is_separator(name.last()) {
        -1
    } else if name.last() == '.' {
        if name.len() >= 2 && !is_separator(name[name.len() - 2]) {
            name.len() - 1
        } else {
            -1
        }
    } else {
        extension_dot(name.drop_last())
    }
}

/// The name without its extension.
pub open spec fn file_stem(name: Seq<char>) -> Seq<char> {
    if extension_dot(name) < 0 {
        name
    } else {
        name.take(extension_dot(name))
    }
}

/// The name with `extension` in place of its own, or added where it has none.
pub open spec fn replaced_extension(name: Seq<char>, extension: Seq<char>) -> Seq<char> {
    file_stem(name) + seq!['.'] + extension
}

/// A file name with its extension replaced; none for the empty name.
pub open spec fn renamed_name(name: Seq<char>, extension: Seq<char>) -> Option<Seq<char>> {
    if name.len() == 0 {
        None
    } else {
        Some(replaced_extension(name, extension))
    }
}

/// The value stands in double quotes.
pub open spec fn is_quoted(value: Seq<char>) -> bool {
    value.len() >= 2 && value[0] == '"' && value.last() == '"'
}

/// The value of a `filename=` parameter with the extension of its file name
/// replaced: a quoted name keeps both quotes. None where the name is empty.
pub open spec fn renamed_value(value: Seq<char>, extension: Seq<char>) -> Option<Seq<char>> {
    if is_quoted(value) {
        match renamed_name(value.subrange(1, value.len() - 1), extension) {
            Some(name) => Some(seq!['"'] + name + seq!['"']),
            None => None,
        }
    } else {
        renamed_name(value, extension)
    }
}

/// What stands before the file name in an extended parameter.
pub open spec fn extended_prefix() -> Seq<char> {
    "filename*=UTF-8''"@
}

/// What stands before the value in a plain parameter.
pub open spec fn plain_prefix() -> Seq<char> {
    "filename="@
}

/// A file-name parameter with the extension of its file name replaced. None
/// where the parameter is neither `filename*=UTF-8''` nor `filename=`
/// followed by a name that is not empty.
pub open spec fn renamed_param(param: Seq<char>, extension: Seq<char>) -> Option<Seq<char>> {
    if has_prefix(param, extended_prefix()) {
        match renamed_name(param.skip(extended_prefix().len() as int), extension) {
            Some(name) => Some(extended_prefix() + name),
            None => None,
        }
    } else if has_prefix(param, plain_prefix()) {
        match renamed_value(param.skip(plain_prefix().len() as int), extension) {
            Some(value) => Some(plain_prefix() + value),
            None => None,
        }
    } else {
        None
    }
}

/// Finds the `.` that starts the extension of `name`.
fn find_extension_dot(name: &str) -> (r: Option<usize>)
    ensures
        match r {
            Some(at) => extension_dot(name@) == at && at < name@.len(),
            None => extension_dot(name@) == -1,
        },
{
    let n = name.unicode_len();
    let mut k: usize = n;
    proof {
        assert(name@.take(n as int) =~= name@);
    }
    while k > 0
        invariant
            k <= n,
            n == name@.len(),
            extension_dot(name@) == extension_dot(name@.take(k as int)),
        decreases k,
    {
        let c = name.get_char(k - 1);
        proof {
            assert(name@.take(k as int).last() == c);
            assert(name@.take(k as int).drop_last() =~= name@.take(k - 1));
        }
        if c == '/' || c == '\\' {
            return None;
        }
        if c == '.' {
            if k >= 2 {
                let before = name.get_char(k - 2);
                assert(name@.take(k as int)[k - 2] == before);
                if before != '/' && before != '\\' {
                    return Some(k - 1);
                }
            }
            return None;
        }
        k -= 1;
    }
    None
}

/// The name with `extension` in place of its own, or added where it has none.
pub fn with_extension(name: &str, extension: &str) -> (r: String)
    ensures
        r@ == replaced_extension(name@, extension@),
{
    let stem = match find_extension_dot(name) {
        Some(at) => name.substring_char(0, at),
        None => name,
    };
    proof {
        reveal_strlit(".");
        if extension_dot(name@) >= 0 {
            assert(name@.subrange(0, extension_dot(name@)) =~= name@.take(extension_dot(name@)));
        }
    }
    let mut out = String::from_str(stem);
    out.append(".");
    out.append(extension);
    assert(out@ =~= file_stem(name@) + seq!['.'] + extension@);
    out
}

/// The value of a `filename=` parameter with the extension of its file name
/// replaced.
fn rename_value(value: &str, extension: &str) -> (r: Option<String>)
    ensures
        option_text(r) == renamed_value(value@, extension@),
{
    let n = value.unicode_len();
    if n >= 2 && value.get_char(0) == '"' && value.get_char(n - 1) == '"' {
        if n == 2 {
            return None;
        }
        let renamed = with_extension(value.substring_char(1, n - 1), extension);
        proof {
            reveal_strlit("\"");
        }
        let mut out = String::from_str("\"");
        out.append(renamed.as_str());
        out.append("\"");
        assert(out@ =~= seq!['"'] + renamed@ + seq!['"']);
        Some(out)
    } else if n == 0 {
        None
    } else {
        Some(with_extension(value, extension))
    }
}

/// A `filename=` or `filename*=UTF-8''` parameter with the extension of its
/// file name replaced by `extension`: `filename="page.jpg"` becomes
/// `filename="page.webp"`. `None` where `name` is no such parameter or
/// holds no file name.
pub fn with_new_file_extension(name: &str, extension: &str) -> (r: Option<String>)
    ensures
        option_text(r) == renamed_param(name@, extension@),
{
    proof {
        reveal_strlit("filename*=UTF-8''");
        reveal_strlit("filename=");
    }
    let n = name.unicode_len();
    if starts_with(name, "filename*=UTF-8''") {
        if n == 17 {
            return None;
        }
        let file_name = name.substring_char(17, n);
        assert(file_name@ =~= name@.skip(17));
        let renamed = with_extension(file_name, extension);
        let mut out = String::from_str("filename*=UTF-8''");
        out.append(renamed.as_str());
        Some(out)
    } else if starts_with(name, "filename=") {
        let value = name.substring_char(9, n);
        assert(value@ =~= name@.skip(9));
        match rename_value(value, extension) {
            Some(renamed) => {
                let mut out = String::from_str("filename=");
                out.append(renamed.as_str());
                Some(out)
            },
            None => None,
        }
    } else {
        None
    }
}

/// A parameter that carries a file name.
pub open spec fn is_filename_param(param: Seq<char>) -> bool {
    has_prefix(param, "filename="@) || has_prefix(param, "filename*="@)
}

/// A parameter that can be rewritten: one without a file name, or one whose
/// file name can be given the extension.
pub open spec fn param_rewritable(param: Seq<char>, extension: Seq<char>) -> bool {
    is_filename_param(param) ==> renamed_param(param, extension) is Some
}

/// The parameter as it stands in the rewritten value: a file-name parameter
/// with the new extension, any other unchanged.
pub open spec fn param_out(param: Seq<char>, extension: Seq<char>) -> Seq<char> {
    if is_filename_param(param) && renamed_param(param, extension) is Some {
        renamed_param(param, extension)->Some_0
    } else {
        param
    }
}

/// Every one of `parts` can be rewritten.
pub open spec fn params_rewritable(parts: Seq<Seq<char>>, extension: Seq<char>) -> bool {
    forall|i: int| 0 <= i < parts.len() ==> param_rewritable(#[trigger] parts[i], extension)
}

/// The parameters rewritten one by one, in their order.
pub open spec fn params_out(parts: Seq<Seq<char>>, extension: Seq<char>) -> Seq<Seq<char>> {
    parts.map_values(|param: Seq<char>| param_out(param, extension))
}

/// Rewrites the parameters of a `Content-Disposition` value: those that
/// carry a file name get the new extension, the others stay. `None` where a
/// file-name parameter holds no file name.
pub fn rewrite_params(parts: &Vec<String>, extension: &str) -> (r: Option<Vec<String>>)
    ensures
        r is Some == params_rewritable(strings_view(parts@), extension@),
        r is Some ==> strings_view(r->Some_0@) == params_out(strings_view(parts@), extension@),
{
    let mut out: Vec<String> = Vec::new();
    let mut i: usize = 0;
    while i < parts.len()
        invariant
            i <= parts.len(),
            out@.len() == i,
            forall|j: int|
                0 <= j < i ==> param_rewritable(#[trigger] strings_view(parts@)[j], extension@),
            forall|j: int|
                0 <= j < i ==> #[trigger] strings_view(out@)[j] == param_out(
                    strings_view(parts@)[j],
                    extension@,
                ),
        decreases parts.len() - i,
    {
        let param = parts[i].as_str();
        let ghost before = out@;
        assert(strings_view(parts@)[i as int] == param@);
        if starts_with(param, "filename=") || starts_with(param, "filename*=") {
            match with_new_file_extension(param, extension) {
                Some(renamed_param) => {
                    out.push(renamed_param);
                },
                None => {
                    assert(!param_rewritable(strings_view(parts@)[i as int], extension@));
                    return None;
                },
            }
        } else {
            out.push(parts[i].clone());
        }
        proof {
            assert forall|j: int| 0 <= j < i + 1 implies #[trigger] strings_view(out@)[j]
                == param_out(strings_view(parts@)[j], extension@) by {
                if j < i {
                    assert(strings_view(out@)[j] == strings_view(before)[j]);
                }
            }
        }
        i += 1;
    }
    assert(strings_view(out@) =~= params_out(strings_view(parts@), extension@));
    Some(out)
}

/// The separator between the parameters of a `Content-Disposition` value.
pub open spec fn param_separator() -> Seq<char> {
    "; "@
}

/// The value's parameters can all be rewritten.
pub open spec fn disposition_rewritable(value: Seq<char>, extension: Seq<char>) -> bool {
    params_rewritable(split_by(value, param_separator()), extension)
}

/// The value with each parameter rewritten and the parameters joined again.
pub open spec fn disposition_out(value: Seq<char>, extension: Seq<char>) -> Seq<char> {
    joined(params_out(split_by(value, param_separator()), extension), param_separator())
}

/// Rewrites a `Content-Disposition` value for files of the given extension.
pub fn rewrite_content_disposition(value: &str, extension: &str) -> (r: Option<String>)
    ensures
        r is Some == disposition_rewritable(value@, extension@),
        r is Some ==> r->Some_0@ == disposition_out(value@, extension@),
{
    proof {
        reveal_strlit("; ");
    }
    let parts = split_text(value, "; ");
    match rewrite_params(&parts, extension) {
        None => None,
        Some(outs) => Some(join_strings(&outs, "; ")),
    }
}

/// Giving a name a new extension changes nothing before the extension: the
/// stem stands at the start of the result, and what follows it is a `.` and
/// the new extension.
pub proof fn lemma_only_the_extension_changes(name: Seq<char>, extension: Seq<char>)
    ensures
        has_prefix(replaced_extension(name, extension), file_stem(name)),
        has_prefix(name, file_stem(name)),
        replaced_extension(name, extension).skip(file_stem(name).len() as int) == seq!['.']
            + extension,
{
    let out = replaced_extension(name, extension);
    let stem = file_stem(name);
    lemma_extension_dot_in_range(name);
    assert(out.take(stem.len() as int) =~= stem);
    assert(name.take(stem.len() as int) =~= stem);
    assert(out.skip(stem.len() as int) =~= seq!['.'] + extension);
}

/// A quoted file name keeps both its quotes.
pub proof fn lemma_quotes_are_kept(value: Seq<char>, extension: Seq<char>)
    requires
        is_quoted(value),
        renamed_value(value, extension) is Some,
    ensures
        is_quoted(renamed_value(value, extension)->Some_0),
{
    let name = renamed_name(value.subrange(1, value.len() - 1), extension)->Some_0;
    let out = seq!['"'] + name + seq!['"'];
    assert(out[0] == '"');
    assert(out.last() == '"');
}

/// Rewriting keeps the number and the order of the parameters, and leaves
/// every parameter that carries no file name as it is.
pub proof fn lemma_other_parameters_stay(parts: Seq<Seq<char>>, extension: Seq<char>, i: int)
    requires
        0 <= i < parts.len(),
    ensures
        params_out(parts, extension).len() == parts.len(),
        !is_filename_param(parts[i]) ==> params_out(parts, extension)[i] == parts[i],
        is_filename_param(parts[i]) && param_rewritable(parts[i], extension) ==> Some(
            params_out(parts, extension)[i],
        ) == renamed_param(parts[i], extension),
{
}

/// The extension's `.` stands inside the name.
pub proof fn lemma_extension_dot_in_range(name: Seq<char>)
    ensures
        -1 <= extension_dot(name) < name.len() || (name.len() == 0 && extension_dot(name) == -1),
        extension_dot(name) >= 0 ==> name[extension_dot(name)] == '.',
    decreases name.len(),
{
    if name.len() > 0 && !is_separator(name.last()) && name.last() != '.' {
        lemma_extension_dot_in_range(name.drop_last());
    }
}

} // verus!
