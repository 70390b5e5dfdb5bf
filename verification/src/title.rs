//! The camera's on-screen title: up to twenty characters burned into the
//! video output, for whoever is watching downstream.
//!
//! `8x 01 04 73 pp ...` sets the title in three parts (where it goes, its
//! first ten characters, its last ten) and `8x 01 04 74 pp FF` shows, hides
//! or clears it.

use vstd::prelude::*;
use vstd::string::*;

use crate::error::Error;
use crate::text::{
    trim_end, trimmed_end, trimming_drops_white_space_alone, white_space,
};
use crate::wire::{self, TERMINATOR};

verus! {

/// How many characters a title holds. Shorter ones are padded out with
/// spaces: the camera redraws all twenty every time.
pub const LENGTH: usize = 20;

/// How many codes the camera's character set has.
pub const CODES: usize = 0x50;

/// The camera's character set, in code order: a character's code is where it
/// sits in this table.
///
/// Uppercase only, with European accents and currency where a computer would
/// have put lowercase. The Deutsche Mark sign at 0x44 has no character of its
/// own to stand for, so nothing maps to it.
pub const CHARACTERS: [char; CODES] = [
    'A', 'B', 'C', 'D', 'E', 'F', 'G', 'H',
    'I', 'J', 'K', 'L', 'M', 'N', 'O', 'P',
    'Q', 'R', 'S', 'T', 'U', 'V', 'W', 'X',
    'Y', 'Z', '&', ' ', '?', '!', '1', '2',
    '3', '4', '5', '6', '7', '8', '9', '0',
    'À', 'È', 'Ì', 'Ò', 'Ù', 'Á', 'É', 'Í',
    'Ó', 'Ú', 'Â', 'Ê', 'Ô', 'Æ', 'Œ', 'Ã',
    'Õ', 'Ñ', 'Ç', 'ß', 'Ä', 'Ï', 'Ö', 'Ü',
    'Å', '$', '₣', '¥', '\u{fffd}', '£', '¿', '¡',
    'ø', '"', ':', '\'', '.', ',', '/', '-',
];

/// What is shown for a code that stands for no character.
pub const REPLACEMENT: char = '\u{fffd}';

/// The code for a space, which is what a title is padded with and what a
/// character the camera can't draw becomes.
pub const SPACE: u8 = 0x1B;

/// The first code at `from` or after it that draws `character`.
pub open spec fn code_from(character: char, from: int) -> Option<u8>
    decreases CODES - from,
{
    if from < 0 || from >= CODES {
        None
    } else if CHARACTERS@[from] == character && character != REPLACEMENT {
        Some(from as u8)
    } else {
        code_from(character, from + 1)
    }
}

/// The camera's own code for `character`, if it draws it.
pub open spec fn code_of(character: char) -> Option<u8> {
    code_from(character, 0)
}

/// The code of the first of these characters that the camera draws, or a
/// space if it draws none of them.
pub open spec fn first_code(characters: Seq<char>) -> u8
    decreases characters.len(),
{
    if characters.len() == 0 {
        SPACE
    } else {
        match code_of(characters.first()) {
            Some(code) => code,
            None => first_code(characters.drop_first()),
        }
    }
}

/// What `char::to_uppercase` yields for a character.
pub uninterp spec fn uppercase(character: char) -> Seq<char>;

/// Calls std's `char::to_uppercase`, whose result is a function of the
/// character alone: Unicode's upper-case mapping, which is one or more
/// characters, and which maps `a` to `z` to the letters from `A` to `Z`.
#[verifier::external_body]
fn to_uppercase(character: char) -> (upper: Vec<char>)
    ensures
        upper@ == uppercase(character),
        'a' <= character <= 'z' ==> upper@ == seq![(character as u32 - 0x20) as u8 as char],
{
    character.to_uppercase().collect()
}

/// The camera's code for `character`: its own, or else that of its upper case,
/// or else a space.
///
/// Uppercased second: 'ß' uppercases to "SS", and the camera has a ß of its
/// own that says it better.
pub open spec fn encoded(character: char) -> u8 {
    match code_of(character) {
        Some(code) => code,
        None => first_code(uppercase(character)),
    }
}

/// What the camera draws for a code.
pub open spec fn drawn(code: u8) -> char {
    if code < CODES {
        CHARACTERS@[code as int]
    } else {
        REPLACEMENT
    }
}

fn code(character: char) -> (code: Option<u8>)
    ensures
        code == code_of(character),
{
    let mut index: usize = 0;
    while index < CODES
        invariant
            index <= CODES,
            code_of(character) == code_from(character, index as int),
        decreases CODES - index,
    {
        if CHARACTERS[index] == character && character != REPLACEMENT {
            return Some(index as u8);
        }
        index += 1;
    }
    None
}

/// A code that is found draws the character, and one that is not found draws
/// it nowhere.
proof fn code_from_searches(character: char, from: int)
    requires
        0 <= from <= CODES,
    ensures
        match code_from(character, from) {
            Some(code) => {
                &&& from <= code < CODES
                &&& CHARACTERS@[code as int] == character
                &&& character != REPLACEMENT
            },
            None => character == REPLACEMENT || forall|code: int|
                from <= code < CODES ==> #[trigger] CHARACTERS@[code] != character,
        },
    decreases CODES - from,
{
    if from < CODES {
        code_from_searches(character, from + 1);
    }
}

/// No character sits in the table twice.
proof fn codes_are_distinct(first: int, second: int)
    requires
        0 <= first < CODES,
        0 <= second < CODES,
        CHARACTERS@[first] == CHARACTERS@[second],
    ensures
        first == second,
{
}

/// The capital letters head the table and the small ones are not in it.
proof fn letters_in_the_table()
    ensures
        forall|code: int|
            0 <= code < 26 ==> (#[trigger] CHARACTERS@[code]) as u32 == 0x41 + code,
        forall|code: int|
            0 <= code < CODES ==> !('a' <= (#[trigger] CHARACTERS@[code]) <= 'z'),
{
}

/// Only a space is blank in the table, and only the code without a character
/// is replaced.
proof fn blanks_in_the_table()
    ensures
        forall|code: int|
            0 <= code < CODES ==> (white_space(#[trigger] CHARACTERS@[code]) <==> code == SPACE),
        forall|code: int|
            0 <= code < CODES ==> (#[trigger] CHARACTERS@[code] == REPLACEMENT <==> code == 0x44),
{
}

/// The code of a character is the place where the table has it.
proof fn the_code_of_a_drawn_character(code: u8)
    requires
        code < CODES,
        code != 0x44,
    ensures
        code_of(drawn(code)) == Some(code),
{
    blanks_in_the_table();
    let character = drawn(code);
    code_from_searches(character, 0);
    assert(CHARACTERS@[code as int] == character);
    let found = code_of(character)->Some_0;
    codes_are_distinct(code as int, found as int);
}

/// A letter's code, whichever case it is in, is its place in the alphabet.
proof fn the_code_of_a_letter(letter: char)
    requires
        'a' <= letter <= 'z',
    ensures
        code_of(letter) is None,
        code_of((letter as u32 - 0x20) as u8 as char) == Some((letter as u32 - 0x61) as u8),
{
    letters_in_the_table();
    code_from_searches(letter, 0);
    let place = (letter as u32 - 0x61) as u8;
    the_code_of_a_drawn_character(place);
    assert(drawn(place) == (letter as u32 - 0x20) as u8 as char);
}

/// The camera's code for the first of these characters that it can draw, or a
/// space if it can draw none of them.
pub fn first_drawable(upper: &[char]) -> (code: u8)
    ensures
        code == first_code(upper@),
{
    let mut index: usize = 0;
    proof {
        assert(upper@.skip(0) =~= upper@);
    }
    while index < upper.len()
        invariant
            index <= upper@.len(),
            first_code(upper@) == first_code(upper@.skip(index as int)),
        decreases upper@.len() - index,
    {
        proof {
            let rest = upper@.skip(index as int);
            assert(rest.first() == upper@[index as int]);
            assert(rest.drop_first() =~= upper@.skip(index + 1));
        }
        if let Some(code) = self::code(upper[index]) {
            return code;
        }
        index += 1;
    }
    SPACE
}

/// The camera's code for `character`, or a space if it can't draw it. A small
/// letter is drawn as the capital.
pub fn encode(character: char) -> (code: u8)
    ensures
        code == encoded(character),
        'a' <= character <= 'z' ==> code == character as u32 - 0x61,
{
    proof {
        if 'a' <= character <= 'z' {
            the_code_of_a_letter(character);
        }
    }
    if let Some(code) = self::code(character) {
        return code;
    }
    let upper = to_uppercase(character);
    first_drawable(upper.as_slice())
}

/// What the camera draws for a run of codes.
pub open spec fn decoded(codes: Seq<u8>) -> Seq<char> {
    codes.map_values(|code: u8| drawn(code))
}

/// What the camera draws for `codes`, for showing a title back to whoever
/// typed it.
pub fn decode(codes: &[u8]) -> (text: String)
    ensures
        text@ == decoded(codes@),
{
    let mut text = String::new();
    let mut index: usize = 0;
    while index < codes.len()
        invariant
            index <= codes@.len(),
            text@ == decoded(codes@.take(index as int)),
        decreases codes@.len() - index,
    {
        let code = codes[index];
        text.push(
            if (code as usize) < CODES {
                CHARACTERS[code as usize]
            } else {
                REPLACEMENT
            },
        );
        index += 1;
        proof {
            assert(text@ =~= decoded(codes@.take(index as int)));
        }
    }
    proof {
        assert(codes@.take(index as int) =~= codes@);
    }
    text
}

/// Every character the camera can draw, for a front end sizing a box that has
/// to hold [`LENGTH`] of them: the table without the code that stands for
/// nothing.
pub fn drawable() -> (characters: Vec<char>)
    ensures
        characters@ == CHARACTERS@.filter(|character: char| character != REPLACEMENT),
{
    let ghost kept = |character: char| character != REPLACEMENT;
    let mut characters: Vec<char> = Vec::new();
    let mut index: usize = 0;
    proof {
        assert(CHARACTERS@.take(0).filter(kept) =~= Seq::empty()) by {
            reveal(Seq::filter);
        }
    }
    while index < CODES
        invariant
            index <= CODES,
            kept == (|character: char| character != REPLACEMENT),
            characters@ == CHARACTERS@.take(index as int).filter(kept),
        decreases CODES - index,
    {
        proof {
            reveal(Seq::filter);
            let longer = CHARACTERS@.take(index + 1);
            assert(longer.drop_last() =~= CHARACTERS@.take(index as int));
            assert(longer.last() == CHARACTERS@[index as int]);
        }
        if CHARACTERS[index] != REPLACEMENT {
            characters.push(CHARACTERS[index]);
        }
        index += 1;
    }
    proof {
        assert(CHARACTERS@.take(index as int) =~= CHARACTERS@);
    }
    characters
}

/// A title as the camera holds it: twenty characters in the camera's own
/// character set.
#[derive(Debug, Clone, Copy)]
pub struct Title(pub [u8; LENGTH]);

impl PartialEq for Title {
    fn eq(&self, other: &Title) -> (equal: bool) {
        let mut index: usize = 0;
        while index < LENGTH
            invariant
                index <= LENGTH,
                forall|place: int| 0 <= place < index ==> self.0@[place] == other.0@[place],
            decreases LENGTH - index,
        {
            if self.0[index] != other.0[index] {
                return false;
            }
            index += 1;
        }
        proof {
            assert(self.0 =~= other.0);
        }
        true
    }
}

impl vstd::std_specs::cmp::PartialEqSpecImpl for Title {
    open spec fn obeys_eq_spec() -> bool {
        true
    }

    open spec fn eq_spec(&self, other: &Title) -> bool {
        *self == *other
    }
}

impl Eq for Title {

}

/// The codes of a title that says `text`: its first twenty characters, padded
/// out with spaces.
pub open spec fn title_codes(text: Seq<char>) -> Seq<u8> {
    Seq::new(
        LENGTH as nat,
        |place: int|
            if place < text.len() {
                encoded(text[place])
            } else {
                SPACE
            },
    )
}

/// What a title with these codes says, without its trailing padding.
pub open spec fn title_text(codes: Seq<u8>) -> Seq<char> {
    trimmed_end(decoded(codes))
}

impl Title {
    /// Encodes `text` for the camera, keeping its first [`LENGTH`] characters.
    ///
    /// Anything outside the camera's character set becomes a space rather
    /// than an error: a missing accent is a better outcome than a refused
    /// caption. A small letter becomes the capital.
    pub fn new(text: &str) -> (title: Title)
        ensures
            title.0@ == title_codes(text@),
            forall|place: int|
                0 <= place < LENGTH && place < text@.len() && 'a' <= #[trigger] text@[place] <= 'z'
                    ==> title.0@[place] == text@[place] as u32 - 0x61,
    {
        let length: usize = text.unicode_len();
        let mut codes: [u8; LENGTH] = [SPACE; LENGTH];
        let mut index: usize = 0;
        while index < LENGTH && index < length
            invariant
                index <= LENGTH,
                index <= length,
                length == text@.len(),
                forall|place: int| 0 <= place < index ==> codes@[place] == encoded(text@[place]),
                forall|place: int| index <= place < LENGTH ==> codes@[place] == SPACE,
                forall|place: int|
                    0 <= place < index && 'a' <= #[trigger] text@[place] <= 'z' ==> codes@[place]
                        == text@[place] as u32 - 0x61,
            decreases LENGTH - index,
        {
            codes[index] = encode(text.get_char(index));
            index += 1;
        }
        proof {
            assert(codes@ =~= title_codes(text@));
        }
        Title(codes)
    }

    /// The title as the camera will draw it, without its trailing padding.
    pub fn text(&self) -> (text: String)
        ensures
            text@ == title_text(self.0@),
    {
        let drawn = decode(self.0.as_slice());
        trim_end(drawn.as_str()).to_owned()
    }
}

/// Every code that is sent draws something: it is in the table, and it is
/// never the one that stands for nothing.
pub proof fn every_code_sent_is_drawn(character: char)
    ensures
        encoded(character) < CODES,
        encoded(character) != 0x44,
        drawn(encoded(character)) != REPLACEMENT,
{
    blanks_in_the_table();
    code_from_searches(character, 0);
    first_code_is_drawn(uppercase(character));
}

proof fn first_code_is_drawn(characters: Seq<char>)
    ensures
        first_code(characters) < CODES,
        first_code(characters) != 0x44,
    decreases characters.len(),
{
    blanks_in_the_table();
    if characters.len() > 0 {
        code_from_searches(characters.first(), 0);
        first_code_is_drawn(characters.drop_first());
    }
}

/// A character the camera has is drawn as itself.
pub proof fn a_drawable_character_is_drawn_as_itself(character: char)
    requires
        exists|code: int|
            0 <= code < CODES && #[trigger] CHARACTERS@[code] == character,
        character != REPLACEMENT,
    ensures
        drawn(encoded(character)) == character,
{
    code_from_searches(character, 0);
}

/// Encoding undoes drawing: every code but the one that stands for nothing is
/// the code of what it draws.
pub proof fn encoding_undoes_drawing(code: u8)
    requires
        code < CODES,
        code != 0x44,
    ensures
        encoded(drawn(code)) == code,
{
    the_code_of_a_drawn_character(code);
}

/// A title reads back as it was typed, if the camera has every character of
/// it, it fits, and it does not end in a space.
pub proof fn a_title_reads_back(text: Seq<char>)
    requires
        text.len() <= LENGTH,
        forall|place: int|
            0 <= place < text.len() ==> drawn(encoded(#[trigger] text[place])) == text[place],
        trimmed_end(text) == text,
    ensures
        title_text(title_codes(text)) == text,
{
    let shown = decoded(title_codes(text));
    assert(shown.take(text.len() as int) =~= text);
    blanks_in_the_table();
    padding_is_trimmed(shown, text.len() as int);
}

proof fn padding_is_trimmed(shown: Seq<char>, length: int)
    requires
        0 <= length <= shown.len(),
        forall|place: int| length <= place < shown.len() ==> white_space(#[trigger] shown[place]),
    ensures
        trimmed_end(shown) == trimmed_end(shown.take(length)),
    decreases shown.len(),
{
    if shown.len() > length {
        assert(white_space(shown[shown.len() - 1]));
        padding_is_trimmed(shown.drop_last(), length);
        assert(shown.drop_last().take(length) =~= shown.take(length));
    } else {
        assert(shown.take(length) =~= shown);
    }
}

/// Typing back what a title says gives the same title.
pub proof fn retyping_a_title_keeps_it(text: Seq<char>)
    ensures
        title_codes(title_text(title_codes(text))) == title_codes(text),
{
    let codes = title_codes(text);
    let shown = decoded(codes);
    let said = title_text(codes);
    trimming_keeps_a_prefix(shown);
    assert forall|place: int| 0 <= place < LENGTH implies title_codes(said)[place]
        == codes[place] by {
        if place < text.len() {
            every_code_sent_is_drawn(text[place]);
        }
        if place < said.len() {
            assert(said[place] == shown[place]);
            encoding_undoes_drawing(codes[place]);
        } else {
            assert(white_space(shown[place]));
            blanks_in_the_table();
        }
    }
    assert(title_codes(said) =~= codes);
}

proof fn trimming_keeps_a_prefix(shown: Seq<char>)
    ensures
        trimmed_end(shown).len() <= shown.len(),
        trimmed_end(shown) == shown.take(trimmed_end(shown).len() as int),
        forall|place: int|
            trimmed_end(shown).len() <= place < shown.len() ==> white_space(#[trigger] shown[place]),
    decreases shown.len(),
{
    if shown.len() > 0 && white_space(shown.last()) {
        trimming_keeps_a_prefix(shown.drop_last());
        let kept = trimmed_end(shown);
        assert(shown.drop_last().take(kept.len() as int) =~= shown.take(kept.len() as int));
        assert forall|place: int| kept.len() <= place < shown.len() implies white_space(
            #[trigger] shown[place],
        ) by {
            if place < shown.len() - 1 {
                assert(shown.drop_last()[place] == shown[place]);
            }
        }
    } else {
        assert(shown.take(shown.len() as int) =~= shown);
    }
}

/// Where the title sits and how it's drawn: bottom left, white, steady.
pub open spec fn appearance() -> Seq<u8> {
    seq![0x0A, 0, 0, 0, 0, 0, 0, 0, 0, 0]
}

/// One message of a title: where it goes, or ten of its characters.
#[derive(Debug, Clone, Copy)]
pub struct TitleSet {
    /// 0x00 for the appearance, 0x01 for the first ten characters, 0x02 for
    /// the last ten.
    pub part: u8,
    /// The ten bytes of that part.
    pub payload: [u8; 10],
}

impl TitleSet {
    /// The message, addressed.
    pub open spec fn message(self, address: u8) -> Seq<u8> {
        seq![address, 0x01, 0x04, 0x73, self.part] + self.payload@ + seq![TERMINATOR]
    }

    /// Writes the message to the front of `buffer`, and says how long it is.
    pub fn write_into(&self, camera: u8, buffer: &mut [u8]) -> (written: Result<usize, Error>)
        requires
            1 <= camera <= 8,
        ensures
            wire::wrote(
                self.message((0x80 + camera) as u8),
                old(buffer)@,
                final(buffer)@,
                written,
            ),
    {
        let ten = self.payload;
        let message: [u8; 16] = [
            wire::address_byte(camera),
            0x01,
            0x04,
            0x73,
            self.part,
            ten[0],
            ten[1],
            ten[2],
            ten[3],
            ten[4],
            ten[5],
            ten[6],
            ten[7],
            ten[8],
            ten[9],
            TERMINATOR,
        ];
        proof {
            assert(message@ =~= self.message((0x80 + camera) as u8));
        }
        wire::write_message(message.as_slice(), buffer)
    }
}

/// The message that shows, hides or clears whatever title the camera holds.
#[derive(Debug, Clone, Copy, PartialEq, Eq, Structural)]
pub struct TitleDisplay(pub u8);

impl TitleDisplay {
    /// The message, addressed.
    pub open spec fn message(self, address: u8) -> Seq<u8> {
        seq![address, 0x01, 0x04, 0x74, self.0, TERMINATOR]
    }

    /// Writes the message to the front of `buffer`, and says how long it is.
    pub fn write_into(&self, camera: u8, buffer: &mut [u8]) -> (written: Result<usize, Error>)
        requires
            1 <= camera <= 8,
        ensures
            wire::wrote(
                self.message((0x80 + camera) as u8),
                old(buffer)@,
                final(buffer)@,
                written,
            ),
    {
        let message: [u8; 6] = [wire::address_byte(camera), 0x01, 0x04, 0x74, self.0, TERMINATOR];
        proof {
            assert(message@ =~= self.message((0x80 + camera) as u8));
        }
        wire::write_message(message.as_slice(), buffer)
    }
}

/// The inquiry after whether the title is showing, and in doing so, whether
/// there is such a thing as a title here at all. It changes nothing.
#[derive(Debug, Clone, Copy, PartialEq, Eq, Structural)]
pub struct TitleDisplayInquiry;

impl TitleDisplayInquiry {
    /// The message, addressed.
    pub open spec fn message(self, address: u8) -> Seq<u8> {
        seq![address, 0x09, 0x04, 0x74, TERMINATOR]
    }

    /// Writes the message to the front of `buffer`, and says how long it is.
    pub fn write_into(&self, camera: u8, buffer: &mut [u8]) -> (written: Result<usize, Error>)
        requires
            1 <= camera <= 8,
        ensures
            wire::wrote(
                self.message((0x80 + camera) as u8),
                old(buffer)@,
                final(buffer)@,
                written,
            ),
    {
        let message: [u8; 5] = [wire::address_byte(camera), 0x09, 0x04, 0x74, TERMINATOR];
        proof {
            assert(message@ =~= self.message((0x80 + camera) as u8));
        }
        wire::write_message(message.as_slice(), buffer)
    }
}

/// Whether a camera that gave this answer to [`TitleDisplayInquiry`] has
/// titles.
///
/// A syntax error is the protocol's way of saying it doesn't know the command,
/// and the only refusal that means the feature is absent. A camera that is
/// asleep, busy or silent counts as having titles.
pub fn supported(answer: &Result<(), Error>) -> (supported: bool)
    ensures
        supported == !(answer is Err && answer->Err_0 is SyntaxError),
{
    match answer {
        Err(Error::SyntaxError) => false,
        _ => true,
    }
}

/// What the part of a title at `place` carries: its appearance, then its
/// characters ten at a time.
pub open spec fn part_payload(codes: Seq<u8>, place: int) -> Seq<u8> {
    if place == 0 {
        appearance()
    } else if place == 1 {
        codes.subrange(0, 10)
    } else {
        codes.subrange(10, 20)
    }
}

/// Whether a message is the part at `place` of a title with these codes.
pub open spec fn is_part(message: TitleSet, codes: Seq<u8>, place: int) -> bool {
    message.part == place && message.payload@ == part_payload(codes, place)
}

/// Whether these messages give the camera a title with these codes.
pub open spec fn sets_title(messages: Seq<TitleSet>, codes: Seq<u8>) -> bool {
    &&& messages.len() == 3
    &&& is_part(messages[0], codes, 0)
    &&& is_part(messages[1], codes, 1)
    &&& is_part(messages[2], codes, 2)
}

fn half(title: Title, from: usize) -> (ten: [u8; 10])
    requires
        from == 0 || from == 10,
    ensures
        ten@ == title.0@.subrange(from as int, from + 10),
{
    let mut ten: [u8; 10] = [SPACE; 10];
    let mut index: usize = 0;
    while index < 10
        invariant
            index <= 10,
            from == 0 || from == 10,
            forall|place: int| 0 <= place < index ==> ten@[place] == title.0@[from + place],
        decreases 10 - index,
    {
        ten[index] = title.0[from + index];
        index += 1;
    }
    proof {
        assert(ten@ =~= title.0@.subrange(from as int, from + 10));
    }
    ten
}

/// The three messages that give the camera a title to hold.
pub fn title_messages(title: Title) -> (messages: Vec<TitleSet>)
    ensures
        sets_title(messages@, title.0@),
{
    let look: [u8; 10] = [0x0A, 0, 0, 0, 0, 0, 0, 0, 0, 0];
    proof {
        assert(look@ =~= appearance());
    }
    vec![
        TitleSet { part: 0x00, payload: look },
        TitleSet { part: 0x01, payload: half(title, 0) },
        TitleSet { part: 0x02, payload: half(title, 10) },
    ]
}

/// Every message about a title ends once: whatever is typed, no code of it can
/// be mistaken for the end.
pub proof fn title_messages_end_once(
    text: Seq<char>,
    messages: Seq<TitleSet>,
    place: int,
    camera: u8,
)
    requires
        1 <= camera <= 8,
        sets_title(messages, title_codes(text)),
        0 <= place < 3,
    ensures
        wire::ends_once(messages[place].message((0x80 + camera) as u8)),
        wire::ends_once(TitleDisplay(0x02).message((0x80 + camera) as u8)),
        wire::ends_once(TitleDisplay(0x03).message((0x80 + camera) as u8)),
        wire::ends_once(TitleDisplayInquiry.message((0x80 + camera) as u8)),
{
    let codes = title_codes(text);
    assert forall|index: int| 0 <= index < LENGTH implies #[trigger] codes[index] < CODES by {
        if index < text.len() {
            every_code_sent_is_drawn(text[index]);
        }
    }
    let ten = messages[place].payload@;
    let message = messages[place].message((0x80 + camera) as u8);
    assert forall|index: int| 0 <= index < message.len() - 1 implies #[trigger] message[index]
        != TERMINATOR by {
        if 5 <= index < 15 {
            assert(message[index] == ten[index - 5]);
            if place == 1 {
                assert(ten[index - 5] == codes[index - 5]);
            } else if place == 2 {
                assert(ten[index - 5] == codes[index + 5]);
            }
        }
    }
}

/// The message to send next, given the camera's answer to the one at `sent`:
/// the first that is refused ends the sending, and after the last there is none.
pub fn after_message(title: Title, sent: usize, answer: Result<(), Error>) -> (next: Result<
    Option<TitleSet>,
    Error,
>)
    requires
        sent < 3,
    ensures
        match answer {
            Ok(_) => {
                &&& next is Ok
                &&& next->Ok_0 is Some <==> sent < 2
                &&& sent < 2 ==> is_part(next->Ok_0->Some_0, title.0@, sent + 1)
            },
            Err(error) => next == Err::<Option<TitleSet>, Error>(error),
        },
{
    match answer {
        Ok(_) => {
            let messages = title_messages(title);
            if sent == 0 {
                Ok(Some(messages[1]))
            } else if sent == 1 {
                Ok(Some(messages[2]))
            } else {
                Ok(None)
            }
        },
        Err(error) => Err(error),
    }
}

/// Whether each part of a title may be sent once those before it were taken.
pub open spec fn may_send<
    A: FnOnce(TitleSet) -> Result<(), Error>,
    F: FnOnce(TitleSet) -> Result<(), Error>,
    S: FnOnce(TitleSet) -> Result<(), Error>,
>(codes: Seq<u8>, appearance: A, first: F, second: S) -> bool {
    forall|messages: Seq<TitleSet>| #[trigger]
        sets_title(messages, codes) ==> {
            let taken = Ok::<(), Error>(());
            &&& call_requires(appearance, (messages[0],))
            &&& call_ensures(appearance, (messages[0],), taken) ==> {
                &&& call_requires(first, (messages[1],))
                &&& call_ensures(first, (messages[1],), taken) ==> call_requires(
                    second,
                    (messages[2],),
                )
            }
        }
}

/// Whether `sent` is what came of sending these messages, one through each of
/// the three: the first that is refused ends the sending.
pub open spec fn sends<
    A: FnOnce(TitleSet) -> Result<(), Error>,
    F: FnOnce(TitleSet) -> Result<(), Error>,
    S: FnOnce(TitleSet) -> Result<(), Error>,
>(
    messages: Seq<TitleSet>,
    appearance: A,
    first: F,
    second: S,
    sent: Result<(), Error>,
) -> bool {
    let taken = Ok::<(), Error>(());
    ||| sent is Err && call_ensures(appearance, (messages[0],), sent)
    ||| sent is Err && call_ensures(appearance, (messages[0],), taken) && call_ensures(
        first,
        (messages[1],),
        sent,
    )
    ||| call_ensures(appearance, (messages[0],), taken) && call_ensures(
        first,
        (messages[1],),
        taken,
    ) && call_ensures(second, (messages[2],), sent)
}

/// Gives the camera a title to hold, without showing it: `appearance`, `first`
/// and `second` each send the part that they are named after, and the first
/// that is refused ends the sending.
pub fn set_title<A, F, S>(title: Title, appearance: A, first: F, second: S) -> (sent: Result<
    (),
    Error,
>)
    where
        A: FnOnce(TitleSet) -> Result<(), Error>,
        F: FnOnce(TitleSet) -> Result<(), Error>,
        S: FnOnce(TitleSet) -> Result<(), Error>,

    requires
        may_send(title.0@, appearance, first, second),
    ensures
        exists|messages: Seq<TitleSet>| #[trigger]
            sets_title(messages, title.0@) && sends(messages, appearance, first, second, sent),
{
    let messages = title_messages(title);
    let ghost mut parts = messages@;
    let answer = appearance(messages[0]);
    let ghost came = answer;
    proof {
        an_ok_says_nothing_more(came);
        assert(sets_title(parts, title.0@));
        assert(came is Err ==> sends(parts, appearance, first, second, came));
    }
    let part = match after_message(title, 0, answer) {
        Ok(Some(part)) => part,
        Ok(None) => return Ok(()),
        Err(error) => return Err(error),
    };
    proof {
        parts = parts.update(1, part);
        assert(sets_title(parts, title.0@));
    }
    let answer = first(part);
    let ghost came = answer;
    proof {
        an_ok_says_nothing_more(came);
        assert(came is Err ==> sends(parts, appearance, first, second, came));
    }
    let part = match after_message(title, 1, answer) {
        Ok(Some(part)) => part,
        Ok(None) => return Ok(()),
        Err(error) => return Err(error),
    };
    proof {
        parts = parts.update(2, part);
        assert(sets_title(parts, title.0@));
    }
    let answer = second(part);
    proof {
        assert(sends(parts, appearance, first, second, answer));
    }
    answer
}

proof fn an_ok_says_nothing_more(answer: Result<(), Error>)
    ensures
        answer is Ok ==> answer == Ok::<(), Error>(()),
{
    if let Ok(nothing) = answer {
        assert(nothing == ());
    }
}

/// What the camera is told about showing its title.
pub open spec fn display_message(on: bool) -> TitleDisplay {
    TitleDisplay(
        if on {
            0x02
        } else {
            0x03
        },
    )
}

/// The message that shows the title the camera is holding, or hides it again.
pub fn show_title(on: bool) -> (message: TitleDisplay)
    ensures
        message == display_message(on),
        message == TitleDisplay(
            if on {
                0x02
            } else {
                0x03
            },
        ),
{
    TitleDisplay(
        if on {
            0x02
        } else {
            0x03
        },
    )
}

/// The table, read out in code order.
pub proof fn the_table_reads_out_in_code_order()
    ensures
        CHARACTERS@ == "ABCDEFGHIJKLMNOPQRSTUVWXYZ& ?!1234567890"@ + "ÀÈÌÒÙÁÉÍÓÚÂÊÔÆŒÃÕÑÇßÄÏÖÜÅ"@
            + "$₣¥\u{fffd}£¿¡ø\":'.,/-"@,
        SPACE == 0x1B,
        LENGTH == 20,
{
    reveal_strlit("ABCDEFGHIJKLMNOPQRSTUVWXYZ& ?!1234567890");
    reveal_strlit("ÀÈÌÒÙÁÉÍÓÚÂÊÔÆŒÃÕÑÇßÄÏÖÜÅ");
    reveal_strlit("$₣¥\u{fffd}£¿¡ø\":'.,/-");
    assert(CHARACTERS@ =~= "ABCDEFGHIJKLMNOPQRSTUVWXYZ& ?!1234567890"@
        + "ÀÈÌÒÙÁÉÍÓÚÂÊÔÆŒÃÕÑÇßÄÏÖÜÅ"@ + "$₣¥\u{fffd}£¿¡ø\":'.,/-"@);
}

/// A character has a code of its own exactly when the table has it, and that
/// code is its place there. The mark that stands for no character has none.
pub proof fn a_code_is_a_place_in_the_table(character: char, code: u8)
    ensures
        code_of(character) == Some(code) <==> code < CODES && CHARACTERS@[code as int] == character
            && character != '\u{fffd}',
{
    code_from_searches(character, 0);
    if code < CODES && CHARACTERS@[code as int] == character && character != REPLACEMENT {
        let found = code_of(character)->Some_0;
        codes_are_distinct(code as int, found as int);
    }
}

/// The code of a run of characters is that of the first one the table has, and
/// that of a space where it has none of them.
pub proof fn the_first_drawable_character_decides(characters: Seq<char>, place: int)
    requires
        0 <= place <= characters.len(),
        forall|earlier: int|
            0 <= earlier < place ==> code_of(#[trigger] characters[earlier]) is None,
        place < characters.len() ==> code_of(characters[place]) is Some,
    ensures
        place < characters.len() ==> first_code(characters) == code_of(
            characters[place],
        )->Some_0,
        place == characters.len() ==> first_code(characters) == SPACE,
    decreases characters.len(),
{
    if characters.len() > 0 {
        if place == 0 {
            assert(code_of(characters.first()) is Some);
        } else {
            assert(code_of(characters[0]) is None);
            let rest = characters.drop_first();
            assert forall|earlier: int| 0 <= earlier < place - 1 implies code_of(
                #[trigger] rest[earlier],
            ) is None by {
                assert(code_of(characters[earlier + 1]) is None);
            }
            the_first_drawable_character_decides(rest, place - 1);
        }
    }
}

/// A character with a code of its own is sent as that code, and any other as
/// its upper case is.
pub proof fn a_character_is_sent_as_its_own_code(character: char)
    ensures
        code_of(character) matches Some(code) ==> encoded(character) == code,
        code_of(character) is None ==> encoded(character) == first_code(uppercase(character)),
{
}

/// A title has twenty codes: those of the first twenty characters of the text,
/// each at its own place, and spaces after its end. What comes after the
/// twentieth character changes nothing, and neither do spaces at the end.
pub proof fn a_title_is_the_first_twenty_characters(text: Seq<char>, place: int)
    requires
        0 <= place < 20,
    ensures
        title_codes(text).len() == 20,
        place < text.len() ==> title_codes(text)[place] == encoded(text[place]),
        place >= text.len() ==> title_codes(text)[place] == 0x1B,
        text.len() >= 20 ==> title_codes(text) == title_codes(text.take(20)),
        title_codes(text + seq![' ']) == title_codes(text),
{
    if text.len() >= 20 {
        assert(title_codes(text) =~= title_codes(text.take(20)));
    }
    the_code_of_a_drawn_character(SPACE);
    assert(encoded(' ') == SPACE);
    assert forall|at: int| 0 <= at < 20 implies title_codes(text + seq![' '])[at] == title_codes(
        text,
    )[at] by {}
    assert(title_codes(text + seq![' ']) =~= title_codes(text));
}

/// What the camera draws for a run of codes is one character for each of them,
/// the one the table has at that place, or the mark for none past its end.
pub proof fn codes_are_drawn_one_by_one(codes: Seq<u8>, place: int)
    requires
        0 <= place < codes.len(),
    ensures
        decoded(codes).len() == codes.len(),
        codes[place] < 0x50 ==> decoded(codes)[place] == CHARACTERS@[codes[place] as int],
        codes[place] >= 0x50 ==> decoded(codes)[place] == '\u{fffd}',
{
}

/// What a title says is what is drawn for it up to the last character that is
/// not blank.
pub proof fn a_title_says_what_is_drawn(codes: Seq<u8>)
    ensures
        ({
            let said = title_text(codes);
            &&& said.len() <= codes.len()
            &&& said == decoded(codes).take(said.len() as int)
            &&& said.len() > 0 ==> !white_space(said.last())
            &&& forall|place: int|
                said.len() <= place < codes.len() ==> white_space(#[trigger] decoded(codes)[place])
        }),
{
    trimming_keeps_a_prefix(decoded(codes));
    trimming_drops_white_space_alone(decoded(codes));
}

/// The two halves of a title are all of it, in order; the part before them
/// says the same of every title. A message carries its part's number and ten
/// bytes between the command and the end.
pub proof fn the_parts_of_a_title_are_all_of_it(
    codes: Seq<u8>,
    other: Seq<u8>,
    message: TitleSet,
    address: u8,
)
    requires
        codes.len() == 20,
        other.len() == 20,
    ensures
        part_payload(codes, 1) + part_payload(codes, 2) == codes,
        part_payload(codes, 1).len() == 10,
        part_payload(codes, 0) == part_payload(other, 0),
        part_payload(codes, 0) == seq![0x0Au8, 0, 0, 0, 0, 0, 0, 0, 0, 0],
        message.message(address).len() == 16,
        message.message(address).take(5) == seq![address, 0x01, 0x04, 0x73, message.part],
        message.message(address).subrange(5, 15) == message.payload@,
        message.message(address)[15] == 0xFF,
{
    assert(part_payload(codes, 1) + part_payload(codes, 2) =~= codes);
    assert(message.message(address).take(5) =~= seq![address, 0x01, 0x04, 0x73, message.part]);
    assert(message.message(address).subrange(5, 15) =~= message.payload@);
}

/// Showing and hiding differ in one byte, and asking whether a title shows
/// changes nothing: the same for every camera but for the address.
pub proof fn a_title_is_shown_and_hidden_by_one_byte(on: bool, address: u8)
    ensures
        display_message(on).message(address) == seq![
            address,
            0x01,
            0x04,
            0x74,
            if on {
                0x02
            } else {
                0x03
            },
            0xFF,
        ],
        TitleDisplayInquiry.message(address) == seq![address, 0x09, 0x04, 0x74, 0xFF],
{
}

/// Three messages give the camera a title: their numbers count up from zero,
/// and the second and third carry its codes between them.
pub proof fn three_messages_carry_a_title(messages: Seq<TitleSet>, codes: Seq<u8>)
    requires
        sets_title(messages, codes),
        codes.len() == 20,
    ensures
        messages.len() == 3,
        messages[0].part == 0,
        messages[1].part == 1,
        messages[2].part == 2,
        messages[1].payload@ + messages[2].payload@ == codes,
        messages[0].payload@ == seq![0x0Au8, 0, 0, 0, 0, 0, 0, 0, 0, 0],
{
    assert(messages[1].payload@ + messages[2].payload@ =~= codes);
}

} // verus!
