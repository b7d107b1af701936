//! Putting the GLSL source of an effect together: the declarations that feed
//! its uniforms become preprocessor definitions, and the uniform
//! declarations of the source itself are commented out, since the parameter
//! block takes their place.

use crate::patterns::captured_by;
use crate::patterns::find_captures;
use crate::patterns::group_text;
use crate::patterns::group_texts;
use crate::patterns::is_piece_of;
use crate::patterns::pattern_compiles;
use crate::patterns::pattern_text;
use vstd::prelude::*;
use vstd::string::*;

verus! {

/// Whether a character is white space as Unicode defines it.
pub open spec fn is_space(c: char) -> bool {
    let n = c as u32;
    (0x09 <= n <= 0x0D) || n == 0x20 || n == 0x85 || n == 0xA0 || n == 0x1680 || (0x2000 <= n
        <= 0x200A) || n == 0x2028 || n == 0x2029 || n == 0x202F || n == 0x205F || n == 0x3000
}

/// `s` without the white space at its start.
pub open spec fn trimmed_start(s: Seq<char>) -> Seq<char>
    decreases s.len(),
{
    if s.len() > 0 && is_space(s[0]) {
        trimmed_start(s.drop_first())
    } else {
        s
    }
}

/// `s` without the white space at its end.
pub open spec fn trimmed_end(s: Seq<char>) -> Seq<char>
    decreases s.len(),
{
    if s.len() > 0 && is_space(s.last()) {
        trimmed_end(s.drop_last())
    } else {
        s
    }
}

/// `s` without the white space at its start and at its end.
pub open spec fn trimmed(s: Seq<char>) -> Seq<char> {
    trimmed_end(trimmed_start(s))
}

/// Position of the first `c` in `s`, or the length of `s` where there is none.
pub open spec fn position_of_char(s: Seq<char>, c: char) -> int
    decreases s.len(),
{
    if s.len() == 0 {
        0
    } else if s[0] == c {
        0
    } else {
        1 + position_of_char(s.drop_first(), c)
    }
}

/// Whether `s` begins with `prefix`.
pub open spec fn begins_with(s: Seq<char>, prefix: Seq<char>) -> bool {
    prefix.len() <= s.len() && s.take(prefix.len() as int) == prefix
}

/// `String::push`: the character is appended to the string.
#[verifier::external_body]
fn push_char(text: &mut String, c: char)
    ensures
        final(text)@ == old(text)@.push(c),
{
    text.push(c);
}

/// Whether a character is white space as Unicode defines it.
pub fn is_whitespace(c: char) -> (space: bool)
    ensures
        space == is_space(c),
{
    let n: u32 = c as u32;
    (0x09 <= n && n <= 0x0D) || n == 0x20 || n == 0x85 || n == 0xA0 || n == 0x1680 || (0x2000 <= n
        && n <= 0x200A) || n == 0x2028 || n == 0x2029 || n == 0x202F || n == 0x205F || n == 0x3000
}

/// The characters of a string.
pub fn chars_of(text: &str) -> (chars: Vec<char>)
    ensures
        chars@ == text@,
{
    broadcast use vstd::string::group_string_axioms;

    let mut chars: Vec<char> = Vec::new();
    for c in it: text.chars()
        invariant
            it.seq() == text@,
            chars@ == it.seq().take(it.index() as int),
    {
        let ghost before = chars@;
        chars.push(c);
        assert(chars@ =~= it.seq().take(it.index() as int + 1));
    }
    assert(chars@ =~= text@);
    chars
}

/// The string made of the given characters.
pub fn text_of(chars: &Vec<char>) -> (text: String)
    ensures
        text@ == chars@,
{
    let mut text = String::new();
    let mut i: usize = 0;
    while i < chars.len()
        invariant
            i <= chars@.len(),
            text@ == chars@.take(i as int),
        decreases chars@.len() - i,
    {
        push_char(&mut text, chars[i]);
        assert(chars@.take(i as int).push(chars@[i as int]) =~= chars@.take(i as int + 1));
        i = i + 1;
    }
    assert(chars@.take(i as int) =~= chars@);
    text
}

/// A statement of the form "type name = value": anything that starts with a
/// word, white space and a second word, followed by an equals sign and at
/// least one more character. The second word and what follows the equals
/// sign are captured.
pub const MAPPING_PATTERN: &'static str = "^\\s*\\w+\\s+(\\w+)\\s*=\\s*(.+)$";

/// The statements of a mapping: its pieces between semicolons, each without
/// the white space around it, those left out that are empty then.
pub open spec fn statements_of(mapping: Seq<char>) -> Seq<Seq<char>>
    decreases mapping.len(),
{
    let at = position_of_char(mapping, ';');
    let head = trimmed(mapping.take(at));
    let rest = if 0 <= at < mapping.len() {
        statements_of(mapping.skip(at + 1))
    } else {
        Seq::empty()
    };
    if head.len() == 0 {
        rest
    } else {
        seq![head] + rest
    }
}

/// Whether `capture` can be what a statement was read as: where it names a
/// name and a value, both are stretches of the statement.
pub open spec fn is_capture_of(statement: Seq<char>, capture: Option<(Seq<char>, Seq<char>)>) -> bool {
    capture matches Some((name, value)) ==> is_piece_of(statement, name) && is_piece_of(
        statement,
        value,
    )
}

/// What a statement is read as by the expression compiled from `pattern`:
/// the name and the value of an assignment, which are what the first and the
/// second group capture, or nothing where the expression does not match.
pub open spec fn assignment_in(pattern: Seq<char>, statement: Seq<char>) -> Option<
    (Seq<char>, Seq<char>),
> {
    match captured_by(pattern, statement) {
        Some(groups) => if groups.len() > 2 {
            match (groups[1], groups[2]) {
                (Some(name), Some(value)) => Some((name, value)),
                _ => None,
            }
        } else {
            None
        },
        None => None,
    }
}

/// What a statement of a mapping is read as: by `MAPPING_PATTERN`, and as
/// nothing should that pattern not compile.
pub open spec fn assignment_read(statement: Seq<char>) -> Option<(Seq<char>, Seq<char>)> {
    if pattern_compiles(MAPPING_PATTERN@) {
        assignment_in(MAPPING_PATTERN@, statement)
    } else {
        None
    }
}

/// What the statements of a mapping are read as, one by one.
pub open spec fn assignments_read(statements: Seq<Seq<char>>) -> Seq<
    Option<(Seq<char>, Seq<char>)>,
> {
    Seq::new(statements.len(), |i: int| assignment_read(statements[i]))
}

/// The preprocessor definitions for a mapping: the lines that its statements become.
pub open spec fn defines_of(mapping: Seq<char>) -> Seq<char> {
    define_lines(statements_of(mapping), assignments_read(statements_of(mapping)))
}

/// The line a statement becomes: a preprocessor definition of the captured
/// name as the captured value where the statement has the form of an
/// assignment, else the statement itself, closed by a semicolon.
pub open spec fn define_line(
    statement: Seq<char>,
    capture: Option<(Seq<char>, Seq<char>)>,
) -> Seq<char> {
    match capture {
        Some((name, value)) => "#define "@ + name + " ("@ + value + ")\n"@,
        None => statement + ";\n"@,
    }
}

/// The lines that the statements become, one after the other.
pub open spec fn define_lines(
    statements: Seq<Seq<char>>,
    captures: Seq<Option<(Seq<char>, Seq<char>)>>,
) -> Seq<char>
    decreases statements.len(),
{
    if statements.len() == 0 || captures.len() != statements.len() {
        Seq::empty()
    } else {
        define_lines(statements.drop_last(), captures.drop_last()) + define_line(
            statements.last(),
            captures.last(),
        )
    }
}

/// Whether a line of source declares a uniform: after its indentation it begins with `uniform `.
pub open spec fn declares_uniform(line: Seq<char>) -> bool {
    begins_with(trimmed_start(line), "uniform "@)
}

/// A line of source as it is passed on: commented out where it declares a uniform.
pub open spec fn passed_line(line: Seq<char>) -> Seq<char> {
    if declares_uniform(line) {
        "// "@ + line
    } else {
        line
    }
}

/// A line without the carriage return that ended it, if one did.
pub open spec fn without_carriage_return(line: Seq<char>) -> Seq<char> {
    if line.len() > 0 && line.last() == '\r' {
        line.drop_last()
    } else {
        line
    }
}

/// A source with its uniform declarations commented out.
///
/// The source is taken line by line. A line ends at a line feed, which may
/// follow a carriage return; the last line need not end at all. The lines
/// are put together again with a line feed between any two of them.
pub open spec fn uniforms_stripped(source: Seq<char>) -> Seq<char>
    decreases source.len(),
{
    if source.len() == 0 {
        Seq::empty()
    } else {
        let at = position_of_char(source, '\n');
        if 0 <= at < source.len() {
            let line = passed_line(without_carriage_return(source.take(at)));
            if at + 1 == source.len() {
                line
            } else {
                line + "\n"@ + uniforms_stripped(source.skip(at + 1))
            }
        } else {
            passed_line(source)
        }
    }
}

/// The texts of strings.
pub open spec fn texts(strings: Seq<String>) -> Seq<Seq<char>> {
    strings.map_values(|s: String| s@)
}

/// The texts of captured pairs.
pub open spec fn capture_texts(captures: Seq<Option<(String, String)>>) -> Seq<
    Option<(Seq<char>, Seq<char>)>,
> {
    captures.map_values(
        |c: Option<(String, String)>|
            match c {
                Some((name, value)) => Some((name@, value@)),
                None => None,
            },
    )
}

proof fn lemma_position_bounds(s: Seq<char>, c: char)
    ensures
        0 <= position_of_char(s, c) <= s.len(),
        position_of_char(s, c) < s.len() ==> s[position_of_char(s, c)] == c,
        forall|i: int| 0 <= i < position_of_char(s, c) ==> s[i] != c,
    decreases s.len(),
{
    if s.len() > 0 && s[0] != c {
        lemma_position_bounds(s.drop_first(), c);
        let rest = position_of_char(s.drop_first(), c);
        assert forall|i: int| 0 <= i < 1 + rest implies s[i] != c by {
            if i > 0 {
                assert(s.drop_first()[i - 1] == s[i]);
            }
        }
        if rest < s.drop_first().len() {
            assert(s.drop_first()[rest] == s[1 + rest]);
        }
    }
}

/// The characters of `chars` from `from` up to `to`.
fn copy_range(chars: &Vec<char>, from: usize, to: usize) -> (piece: Vec<char>)
    requires
        from <= to <= chars@.len(),
    ensures
        piece@ == chars@.subrange(from as int, to as int),
{
    let mut piece: Vec<char> = Vec::new();
    let mut i: usize = from;
    while i < to
        invariant
            from <= i <= to <= chars@.len(),
            piece@ == chars@.subrange(from as int, i as int),
        decreases to - i,
    {
        piece.push(chars[i]);
        assert(piece@ =~= chars@.subrange(from as int, i as int + 1));
        i = i + 1;
    }
    piece
}

/// Where the first `c` at or after `from` is, or the length where there is none.
fn find_char(chars: &Vec<char>, from: usize, c: char) -> (at: usize)
    requires
        from <= chars@.len(),
    ensures
        from <= at <= chars@.len(),
        at - from == position_of_char(chars@.skip(from as int), c),
{
    let mut i: usize = from;
    while i < chars.len() && chars[i] != c
        invariant
            from <= i <= chars@.len(),
            position_of_char(chars@.skip(from as int), c) == (i - from) + position_of_char(
                chars@.skip(i as int),
                c,
            ),
        decreases chars@.len() - i,
    {
        assert(chars@.skip(i as int)[0] == chars@[i as int]);
        assert(chars@.skip(i as int).drop_first() =~= chars@.skip(i as int + 1));
        i = i + 1;
    }
    proof {
        if i < chars@.len() {
            assert(chars@.skip(i as int)[0] == chars@[i as int]);
        }
    }
    i
}

/// Where the piece from `from` up to `to` begins once the white space at its start is left out.
fn skip_spaces(chars: &Vec<char>, from: usize, to: usize) -> (start: usize)
    requires
        from <= to <= chars@.len(),
    ensures
        from <= start <= to,
        chars@.subrange(start as int, to as int) == trimmed_start(
            chars@.subrange(from as int, to as int),
        ),
{
    let mut i: usize = from;
    while i < to && is_whitespace(chars[i])
        invariant
            from <= i <= to <= chars@.len(),
            trimmed_start(chars@.subrange(from as int, to as int)) == trimmed_start(
                chars@.subrange(i as int, to as int),
            ),
        decreases to - i,
    {
        assert(chars@.subrange(i as int, to as int)[0] == chars@[i as int]);
        assert(chars@.subrange(i as int, to as int).drop_first() =~= chars@.subrange(
            i as int + 1,
            to as int,
        ));
        i = i + 1;
    }
    proof {
        if i < to {
            assert(chars@.subrange(i as int, to as int)[0] == chars@[i as int]);
        }
    }
    i
}

/// Where the piece from `from` up to `to` ends once the white space at its end is left out.
fn skip_spaces_back(chars: &Vec<char>, from: usize, to: usize) -> (end: usize)
    requires
        from <= to <= chars@.len(),
    ensures
        from <= end <= to,
        chars@.subrange(from as int, end as int) == trimmed_end(
            chars@.subrange(from as int, to as int),
        ),
{
    let mut j: usize = to;
    while j > from && is_whitespace(chars[j - 1])
        invariant
            from <= j <= to <= chars@.len(),
            trimmed_end(chars@.subrange(from as int, to as int)) == trimmed_end(
                chars@.subrange(from as int, j as int),
            ),
        decreases j - from,
    {
        assert(chars@.subrange(from as int, j as int).last() == chars@[j as int - 1]);
        assert(chars@.subrange(from as int, j as int).drop_last() =~= chars@.subrange(
            from as int,
            j as int - 1,
        ));
        j = j - 1;
    }
    proof {
        if j > from {
            assert(chars@.subrange(from as int, j as int).last() == chars@[j as int - 1]);
        }
    }
    j
}

/// Whether the piece from `from` up to `to` begins with `prefix`.
fn begins_with_at(chars: &Vec<char>, from: usize, to: usize, prefix: &Vec<char>) -> (yes: bool)
    requires
        from <= to <= chars@.len(),
    ensures
        yes == begins_with(chars@.subrange(from as int, to as int), prefix@),
{
    let piece = Ghost(chars@.subrange(from as int, to as int));
    if prefix.len() > to - from {
        return false;
    }
    let mut i: usize = 0;
    while i < prefix.len()
        invariant
            i <= prefix@.len() <= to - from,
            from <= to <= chars@.len(),
            piece@ == chars@.subrange(from as int, to as int),
            forall|j: int| 0 <= j < i ==> piece@[j] == prefix@[j],
        decreases prefix@.len() - i,
    {
        if chars[from + i] != prefix[i] {
            proof {
                assert(piece@.take(prefix@.len() as int)[i as int] == chars@[from + i]);
            }
            return false;
        }
        assert(piece@[i as int] == chars@[from + i]);
        i = i + 1;
    }
    assert(piece@.take(prefix@.len() as int) =~= prefix@);
    true
}

/// Appends the characters of `chars` from `from` up to `to` to `out`.
fn append_range(out: &mut Vec<char>, chars: &Vec<char>, from: usize, to: usize)
    requires
        from <= to <= chars@.len(),
    ensures
        final(out)@ == old(out)@ + chars@.subrange(from as int, to as int),
{
    let mut i: usize = from;
    while i < to
        invariant
            from <= i <= to <= chars@.len(),
            out@ == old(out)@ + chars@.subrange(from as int, i as int),
        decreases to - i,
    {
        out.push(chars[i]);
        assert(out@ =~= old(out)@ + chars@.subrange(from as int, i as int + 1));
        i = i + 1;
    }
    assert(chars@.subrange(from as int, to as int) =~= chars@.subrange(from as int, i as int));
}

/// Takes a mapping apart into its statements: the pieces between
/// semicolons, each without the white space around it, empty ones left out.
#[verifier::rlimit(40)]
pub fn mapping_statements(mapping: &str) -> (statements: Vec<String>)
    ensures
        texts(statements@) == statements_of(mapping@),
{
    let chars = chars_of(mapping);
    let mut statements: Vec<String> = Vec::new();
    let mut from: usize = 0;
    let mut done = false;
    assert(chars@.skip(0) =~= chars@);
    assert(texts(statements@) =~= Seq::<Seq<char>>::empty());
    while !done
        invariant
            from <= chars@.len(),
            chars@ == mapping@,
            !done ==> statements_of(chars@) == texts(statements@) + statements_of(
                chars@.skip(from as int),
            ),
            done ==> statements_of(chars@) == texts(statements@),
        decreases (chars@.len() - from) + (if done { 0int } else { 1int }),
    {
        let ghost rest = chars@.skip(from as int);
        let ghost before = texts(statements@);
        let at = find_char(&chars, from, ';');
        let start = skip_spaces(&chars, from, at);
        let end = skip_spaces_back(&chars, start, at);
        proof {
            lemma_position_bounds(rest, ';');
            assert(rest.take(at - from) =~= chars@.subrange(from as int, at as int));
            assert(chars@.subrange(start as int, end as int) == trimmed(rest.take(at - from)));
        }
        if start < end {
            let piece = copy_range(&chars, start, end);
            let statement = text_of(&piece);
            statements.push(statement);
            proof {
                assert(texts(statements@) =~= before + seq![statement@]);
            }
        }
        if at < chars.len() {
            proof {
                assert(rest.skip(at - from + 1) =~= chars@.skip(at as int + 1));
                assert(statements_of(rest) == if start < end {
                    seq![chars@.subrange(start as int, end as int)] + statements_of(
                        chars@.skip(at as int + 1),
                    )
                } else {
                    statements_of(chars@.skip(at as int + 1))
                });
                assert(texts(statements@) + statements_of(chars@.skip(at as int + 1)) =~= before
                    + statements_of(rest));
            }
            from = at + 1;
        } else {
            proof {
                assert(statements_of(rest) =~= if start < end {
                    seq![chars@.subrange(start as int, end as int)]
                } else {
                    Seq::<Seq<char>>::empty()
                });
                assert(texts(statements@) =~= before + statements_of(rest));
            }
            done = true;
        }
    }
    statements
}

/// Writes the statements of a mapping as lines of GLSL. `captures` says of
/// each statement whether it has the form of an assignment, and if so which
/// name it gives which value.
pub fn define_text(statements: &Vec<String>, captures: &Vec<Option<(String, String)>>) -> (text:
    String)
    requires
        statements@.len() == captures@.len(),
    ensures
        text@ == define_lines(texts(statements@), capture_texts(captures@)),
{
    let mut text = String::new();
    let mut i: usize = 0;
    let ghost all_statements = texts(statements@);
    let ghost all_captures = capture_texts(captures@);
    assert(all_statements.take(0) =~= Seq::<Seq<char>>::empty());
    while i < statements.len()
        invariant
            i <= statements@.len(),
            statements@.len() == captures@.len(),
            all_statements == texts(statements@),
            all_captures == capture_texts(captures@),
            text@ == define_lines(all_statements.take(i as int), all_captures.take(i as int)),
        decreases statements@.len() - i,
    {
        let ghost before = text@;
        proof {
            assert(all_statements.take(i as int + 1).drop_last() =~= all_statements.take(i as int));
            assert(all_captures.take(i as int + 1).drop_last() =~= all_captures.take(i as int));
            assert(all_statements.take(i as int + 1).last() == statements@[i as int]@);
            assert(all_captures.take(i as int + 1).last() == all_captures[i as int]);
        }
        match &captures[i] {
            Some((name, value)) => {
                text.append("#define ");
                text.append(name.as_str());
                text.append(" (");
                text.append(value.as_str());
                text.append(")\n");
                proof {
                    assert(text@ =~= before + ("#define "@ + name@ + " ("@ + value@ + ")\n"@));
                }
            },
            None => {
                text.append(statements[i].as_str());
                text.append(";\n");
                proof {
                    assert(text@ =~= before + (statements@[i as int]@ + ";\n"@));
                }
            },
        }
        i = i + 1;
    }
    proof {
        assert(all_statements.take(i as int) =~= all_statements);
        assert(all_captures.take(i as int) =~= all_captures);
    }
    text
}

/// Comments out the uniform declarations of a source, line by line.
#[verifier::rlimit(40)]
pub fn strip_uniforms(source: &str) -> (stripped: String)
    ensures
        stripped@ == uniforms_stripped(source@),
{
    let chars = chars_of(source);
    let keyword = chars_of("uniform ");
    let comment = chars_of("// ");
    let line_feed = chars_of("\n");
    let mut out: Vec<char> = Vec::new();
    let mut from: usize = 0;
    let mut done = chars.len() == 0;
    assert(chars@.skip(0) =~= chars@);
    while !done
        invariant
            from <= chars@.len(),
            chars@ == source@,
            keyword@ == "uniform "@,
            comment@ == "// "@,
            line_feed@ == "\n"@,
            !done ==> from < chars@.len(),
            !done ==> uniforms_stripped(chars@) == out@ + uniforms_stripped(chars@.skip(from as int)),
            done ==> uniforms_stripped(chars@) == out@,
        decreases (chars@.len() - from) + (if done { 0int } else { 1int }),
    {
        let ghost rest = chars@.skip(from as int);
        let ghost before = out@;
        let at = find_char(&chars, from, '\n');
        proof {
            lemma_position_bounds(rest, '\n');
        }
        let line_end = if at < chars.len() && at > from && chars[at - 1] == '\r' {
            at - 1
        } else {
            at
        };
        let ghost line = chars@.subrange(from as int, line_end as int);
        proof {
            assert(rest.take(at - from) =~= chars@.subrange(from as int, at as int));
            if at < chars@.len() {
                let raw = rest.take(at - from);
                if at > from {
                    assert(raw.last() == chars@[at as int - 1]);
                    assert(raw.drop_last() =~= chars@.subrange(from as int, at as int - 1));
                }
                assert(line == without_carriage_return(raw));
            } else {
                assert(line =~= rest);
            }
        }
        let indent_end = skip_spaces(&chars, from, line_end);
        if begins_with_at(&chars, indent_end, line_end, &keyword) {
            append_range(&mut out, &comment, 0, comment.len());
            proof {
                assert(comment@.subrange(0, comment@.len() as int) =~= comment@);
            }
        }
        append_range(&mut out, &chars, from, line_end);
        proof {
            assert(out@ =~= before + passed_line(line));
        }
        if at < chars.len() {
            if at + 1 == chars.len() {
                done = true;
            } else {
                append_range(&mut out, &line_feed, 0, line_feed.len());
                proof {
                    assert(line_feed@.subrange(0, line_feed@.len() as int) =~= line_feed@);
                    assert(rest.skip(at - from + 1) =~= chars@.skip(at as int + 1));
                    assert(out@ + uniforms_stripped(chars@.skip(at as int + 1)) =~= before + (
                    passed_line(line) + "\n"@ + uniforms_stripped(chars@.skip(at as int + 1))));
                }
                from = at + 1;
            }
        } else {
            done = true;
        }
    }
    text_of(&out)
}

/// Reads a statement as an assignment: the name it gives a value to, and
/// the value. `None` says that the statement has not the form of one. Name
/// and value are taken from the statement: each is a stretch of its text.
///
/// The expression is meant to be one that `Regex::new` has made; only of
/// such an expression is the pattern in the contract the pattern that was
/// written.
pub fn capture_assignment(pattern: &regex::Regex, statement: &str) -> (capture: Option<
    (String, String),
>)
    ensures
        assignment_in(pattern_text(*pattern), statement@) == match capture {
            Some((name, value)) => Some((name@, value@)),
            None => None,
        },
        is_capture_of(statement@, assignment_in(pattern_text(*pattern), statement@)),
{
    match find_captures(pattern, statement) {
        Some(captured) => match group_text(&captured, 1) {
            Some(name) => match group_text(&captured, 2) {
                Some(value) => {
                    proof {
                        assert(group_texts(captured)[1] == Some(name@));
                        assert(group_texts(captured)[2] == Some(value@));
                    }
                    Some((name, value))
                },
                None => None,
            },
            None => None,
        },
        None => None,
    }
}

/// Reads each statement as an assignment, with `MAPPING_PATTERN`.
pub fn capture_assignments(statements: &Vec<String>) -> (captures: Vec<Option<(String, String)>>)
    ensures
        capture_texts(captures@) == assignments_read(texts(statements@)),
{
    let mut captures: Vec<Option<(String, String)>> = Vec::new();
    let compiled = regex::Regex::new(MAPPING_PATTERN);
    let mut i: usize = 0;
    while i < statements.len()
        invariant
            i <= statements@.len(),
            captures@.len() == i,
            compiled.is_ok() == pattern_compiles(MAPPING_PATTERN@),
            compiled matches Ok(made) ==> pattern_text(made) == MAPPING_PATTERN@,
            forall|j: int|
                0 <= j < i ==> #[trigger] capture_texts(captures@)[j] == assignment_read(
                    statements@[j]@,
                ),
        decreases statements@.len() - i,
    {
        let capture = match &compiled {
            Ok(pattern) => capture_assignment(pattern, statements[i].as_str()),
            Err(_) => None,
        };
        let ghost before = captures@;
        captures.push(capture);
        proof {
            assert forall|j: int| 0 <= j < i + 1 implies #[trigger] capture_texts(captures@)[j]
                == assignment_read(statements@[j]@) by {
                if j < i {
                    assert(capture_texts(captures@)[j] == capture_texts(before)[j]);
                }
            }
        }
        i = i + 1;
    }
    proof {
        assert(capture_texts(captures@) =~= assignments_read(texts(statements@)));
    }
    captures
}

/// The preprocessor definitions for a mapping: each statement that has the
/// form of an assignment defines its name as its value, any other statement
/// is passed on as it is.
pub fn defines_for(mapping: &str) -> (defines: String)
    ensures
        defines@ == defines_of(mapping@),
{
    let statements = mapping_statements(mapping);
    let captures = capture_assignments(&statements);
    define_text(&statements, &captures)
}

} // verus!
