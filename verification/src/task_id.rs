//! The id of a created agent task: a UUID in its hyphenated text form.
use vstd::prelude::*;

use crate::text::push_char;

verus! {

pub open spec fn is_hex_digit(c: char) -> bool {
    ||| ('0' <= c && c <= '9')
    ||| ('a' <= c && c <= 'f')
    ||| ('A' <= c && c <= 'F')
}

pub open spec fn is_lower_hex_digit(c: char) -> bool {
    ||| ('0' <= c && c <= '9')
    ||| ('a' <= c && c <= 'f')
}

/// The positions of the four hyphens in `xxxxxxxx-xxxx-xxxx-xxxx-xxxxxxxxxxxx`.
pub open spec fn is_hyphen_position(i: int) -> bool {
    i == 8 || i == 13 || i == 18 || i == 23
}

/// `s` is a UUID in hyphenated form: 32 hex digits of either case, grouped
/// 8-4-4-4-12 by hyphens.
pub open spec fn is_uuid_text(s: Seq<char>) -> bool {
    &&& s.len() == 36
    &&& forall|i: int|
        0 <= i < 36 ==> if is_hyphen_position(i) {
            #[trigger] s[i] == '-'
        } else {
            is_hex_digit(s[i])
        }
}

/// `s` is a UUID in hyphenated form with lower-case hex digits.
pub open spec fn is_canonical_uuid_text(s: Seq<char>) -> bool {
    &&& s.len() == 36
    &&& forall|i: int|
        0 <= i < 36 ==> if is_hyphen_position(i) {
            #[trigger] s[i] == '-'
        } else {
            is_lower_hex_digit(s[i])
        }
}

/// The lower-case form of a character: `A`..`F` become `a`..`f`, and
/// every other character stays.
pub open spec fn lower_hex(c: char) -> char {
    if c == 'A' { 'a' }
    else if c == 'B' { 'b' }
    else if c == 'C' { 'c' }
    else if c == 'D' { 'd' }
    else if c == 'E' { 'e' }
    else if c == 'F' { 'f' }
    else { c }
}

pub open spec fn lower_hex_text(s: Seq<char>) -> Seq<char> {
    s.map_values(|c: char| lower_hex(c))
}

/// The id of a created agent task.
#[derive(Debug)]
pub struct AmbientAgentTaskId {
    text: String,
}

/// The text that was not a UUID.
#[derive(Debug)]
pub struct TaskIdParseError;

impl View for AmbientAgentTaskId {
    type V = Seq<char>;

    /// The id's canonical text.
    closed spec fn view(&self) -> Seq<char> {
        self.text@
    }
}

fn lower_hex_char(c: char) -> (r: char)
    ensures
        r == lower_hex(c),
{
    if c == 'A' { 'a' }
    else if c == 'B' { 'b' }
    else if c == 'C' { 'c' }
    else if c == 'D' { 'd' }
    else if c == 'E' { 'e' }
    else if c == 'F' { 'f' }
    else { c }
}

fn hex_digit(c: char) -> (r: bool)
    ensures
        r == is_hex_digit(c),
{
    ('0' <= c && c <= '9') || ('a' <= c && c <= 'f') || ('A' <= c && c <= 'F')
}

impl AmbientAgentTaskId {
    #[verifier::type_invariant]
    spec fn well_formed(self) -> bool {
        is_canonical_uuid_text(self.text@)
    }

    /// Parses a UUID in hyphenated form, with hex digits of either case;
    /// the id keeps them in lower case.
    pub fn from_str(s: &str) -> (r: Result<AmbientAgentTaskId, TaskIdParseError>)
        ensures
            r is Ok <==> is_uuid_text(s@),
            r matches Ok(id) ==> id@ == lower_hex_text(s@),
    {
        let n = s.unicode_len();
        if n != 36 {
            return Err(TaskIdParseError);
        }
        let mut text = String::new();
        let mut pos: usize = 0;
        for c in it: s.chars()
            invariant
                it.seq() == s@,
                s@.len() == 36,
                pos == it.index(),
                text@ == lower_hex_text(s@.take(pos as int)),
                forall|i: int|
                    0 <= i < pos ==> if is_hyphen_position(i) {
                        #[trigger] s@[i] == '-'
                    } else {
                        is_hex_digit(s@[i])
                    },
        {
            let hyphen = pos == 8 || pos == 13 || pos == 18 || pos == 23;
            if hyphen {
                if c != '-' {
                    return Err(TaskIdParseError);
                }
            } else if !hex_digit(c) {
                return Err(TaskIdParseError);
            }
            let ghost prev = text@;
            push_char(&mut text, lower_hex_char(c));
            assert(s@.take(pos + 1) =~= s@.take(pos as int).push(c));
            assert(text@ =~= lower_hex_text(s@.take(pos + 1)));
            pos = pos + 1;
        }
        assert(s@.take(36) =~= s@);
        proof {
            lemma_lower_hex_text_is_canonical(s@);
        }
        Ok(AmbientAgentTaskId { text })
    }

    /// The id's text, as its `Display` writes it.
    pub fn to_string(&self) -> (r: String)
        ensures
            r@ == self@,
            is_canonical_uuid_text(r@),
    {
        proof {
            use_type_invariant(self);
        }
        self.text.clone()
    }
}

/// Lower-casing a UUID text gives its canonical text.
pub proof fn lemma_lower_hex_text_is_canonical(s: Seq<char>)
    requires
        is_uuid_text(s),
    ensures
        is_canonical_uuid_text(lower_hex_text(s)),
{
    assert forall|i: int| 0 <= i < 36 implies if is_hyphen_position(i) {
        #[trigger] lower_hex_text(s)[i] == '-'
    } else {
        is_lower_hex_digit(lower_hex_text(s)[i])
    } by {
        assert(lower_hex_text(s)[i] == lower_hex(s[i]));
        if is_hyphen_position(i) {
            assert(s[i] == '-');
        } else {
            assert(is_hex_digit(s[i]));
        }
    }
}

/// A task id's text parses back to the same id: every canonical text is a
/// UUID text that lower-casing leaves unchanged.
pub proof fn lemma_task_id_text_round_trip(t: Seq<char>)
    requires
        is_canonical_uuid_text(t),
    ensures
        is_uuid_text(t),
        lower_hex_text(t) == t,
{
    assert forall|i: int| 0 <= i < 36 implies if is_hyphen_position(i) {
        #[trigger] t[i] == '-'
    } else {
        is_hex_digit(t[i])
    } by {
        if !is_hyphen_position(i) {
            assert(is_lower_hex_digit(t[i]));
        }
    }
    assert forall|i: int| 0 <= i < t.len() implies #[trigger] lower_hex_text(t)[i] == t[i] by {
        if is_hyphen_position(i) {
            assert(t[i] == '-');
        } else {
            assert(is_lower_hex_digit(t[i]));
        }
    }
    assert(lower_hex_text(t) =~= t);
}

/// Parses a task id that is known to be a UUID in hyphenated form.
pub fn task_id(uuid: &str) -> (r: AmbientAgentTaskId)
    requires
        is_uuid_text(uuid@),
    ensures
        r@ == lower_hex_text(uuid@),
{
    match AmbientAgentTaskId::from_str(uuid) {
        Ok(id) => id,
        Err(_) => vstd::pervasive::unreached(),
    }
}

} // verus!
