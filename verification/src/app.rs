//! The session state: the identifier buffer, the case-folding and version
//! flags, the transient copy feedback, and the operations on them — the
//! `Name#Digits` validator, the sanitizer, and the unlock-code transform.

use vstd::prelude::*;
use vstd::string::StringExecFns;
use vstd::string::StringSliceAdditionalSpecFns;
use vstd::string::StrSliceExecFns;
use vstd::utf8::{decode_utf8, encode_utf8, valid_utf8};
use crate::text::{
    is_ascii_alphanumeric_char, is_ascii_digit_char, is_base64_char, is_id_char,
    spec_is_ascii_alphanumeric, spec_is_ascii_digit, spec_is_base64_char, spec_is_id_char, str_eq,
};
use crate::transcode::{
    b64_decode_of, b64_of, base64_decode, base64_encode, bytes_to_string, lower_of, lowercase,
};

verus! {

/// Minimum number of digits after the `#` separator.
pub const MIN_NUMBER_LENGTH: usize = 4;

/// Milliseconds after which the "copied to clipboard" feedback expires.
pub const COPY_FEEDBACK_EXPIRY_MS: u64 = 1000;

/// The legacy configuration suffix.
pub open spec fn wa4_config() -> Seq<char> {
    "ctdveirvrtdice"@
}

/// The current configuration suffix.
pub open spec fn wa5_config() -> Seq<char> {
    "vridtcetvrdice"@
}

/// The suffix that both recognized versions resolve to when encoding.
pub open spec fn default_config() -> Seq<char> {
    "vridtcetvrdice"@
}

/// A name part: non-empty, every character ASCII alphanumeric.
pub open spec fn spec_valid_name(s: Seq<char>) -> bool {
    s.len() > 0 && forall|i: int| 0 <= i < s.len() ==> spec_is_ascii_alphanumeric(#[trigger] s[i])
}

/// A number part: at least `MIN_NUMBER_LENGTH` characters, all ASCII digits.
pub open spec fn spec_valid_number(s: Seq<char>) -> bool {
    s.len() >= MIN_NUMBER_LENGTH && forall|i: int|
        0 <= i < s.len() ==> spec_is_ascii_digit(#[trigger] s[i])
}

/// The identifier grammar: exactly one `'#'`, splitting the text into a valid
/// name part and a valid number part.
pub open spec fn spec_valid_id(s: Seq<char>) -> bool {
    exists|i: int|
        {
            &&& 0 <= i < s.len()
            &&& #[trigger] s[i] == '#'
            &&& forall|j: int| 0 <= j < s.len() && j != i ==> s[j] != '#'
            &&& spec_valid_name(s.subrange(0, i))
            &&& spec_valid_number(s.subrange(i + 1, s.len() as int))
        }
}

/// What the sanitizer leaves of a text: the subsequence of ASCII
/// alphanumerics and `'#'`, in order.
pub open spec fn spec_sanitize(s: Seq<char>) -> Seq<char>
    decreases s.len(),
{
    if s.len() == 0 {
        Seq::empty()
    } else if spec_is_id_char(s.last()) {
        spec_sanitize(s.drop_last()).push(s.last())
    } else {
        spec_sanitize(s.drop_last())
    }
}

/// What the Base64 cleanup leaves of a pasted code: the subsequence of ASCII
/// alphanumerics and `'+'`, `'/'`, `'='`, in order.
pub open spec fn spec_clean(s: Seq<char>) -> Seq<char>
    decreases s.len(),
{
    if s.len() == 0 {
        Seq::empty()
    } else if spec_is_base64_char(s.last()) {
        spec_clean(s.drop_last()).push(s.last())
    } else {
        spec_clean(s.drop_last())
    }
}

/// `version` holds one of the two recognized tags.
pub open spec fn spec_known_version(v: Seq<char>) -> bool {
    v == "retail"@ || v == "classic"@
}

/// The plaintext that the forward transform encodes: the identifier, folded
/// to lower case when asked, followed by the configuration suffix.
pub open spec fn spec_payload(id: Seq<char>, fold: bool) -> Seq<char> {
    (if fold {
        lower_of(id)
    } else {
        id
    }) + default_config()
}

/// The unlock code derived from an identifier under the given case setting.
pub open spec fn spec_code(id: Seq<char>, fold: bool) -> Seq<char> {
    b64_of(encode_utf8(spec_payload(id, fold)))
}

/// One decoded candidate against one expected plaintext: equal outright, or
/// equal after folding both to lower case.
pub open spec fn spec_match_one(decoded: Seq<char>, expected: Seq<char>) -> bool {
    lower_of(decoded) == lower_of(expected) || decoded == expected
}

/// A decoded candidate against the four expected plaintexts: the identifier,
/// as typed and lower-cased, followed by either historical suffix.
pub open spec fn spec_matches(id: Seq<char>, decoded: Seq<char>) -> bool {
    ||| spec_match_one(decoded, lower_of(id) + wa4_config())
    ||| spec_match_one(decoded, id + wa4_config())
    ||| spec_match_one(decoded, lower_of(id) + wa5_config())
    ||| spec_match_one(decoded, id + wa5_config())
}

/// What a candidate code decodes to: cleaned of foreign characters, Base64
/// decoded, read as UTF-8; `None` where either decoding step rejects it.
pub open spec fn spec_decoded(candidate: Seq<char>) -> Option<Seq<char>> {
    match b64_decode_of(spec_clean(candidate)) {
        Option::None => Option::None,
        Option::Some(bytes) => if valid_utf8(bytes) {
            Option::Some(decode_utf8(bytes))
        } else {
            Option::None
        },
    }
}

/// Whether a candidate code verifies against an identifier: it decodes, and
/// the decoded text matches one of the expected plaintexts.
pub open spec fn spec_validates(id: Seq<char>, candidate: Seq<char>) -> bool {
    match spec_decoded(candidate) {
        Option::None => false,
        Option::Some(d) => spec_matches(id, d),
    }
}

/// The session: identifier buffer, case-folding flag, version tag, and the
/// transient "copied" feedback deadline in milliseconds.
pub struct App {
    pub battlenet_id: String,
    pub use_lowercase: bool,
    pub version: String,
    pub copy_feedback: Option<u64>,
}

/// The fields a mutation of the identifier buffer leaves untouched.
pub open spec fn same_settings(pre: App, post: App) -> bool {
    &&& post.use_lowercase == pre.use_lowercase
    &&& post.version == pre.version
    &&& post.copy_feedback == pre.copy_feedback
}

/// How a version toggle relates the old session to the new one: the two
/// recognized tags swap, anything else normalizes to `"retail"`, and the
/// result is always recognized; no other field moves.
pub open spec fn spec_toggled_version(pre: App, post: App) -> bool {
    &&& pre.version@ == "classic"@ ==> post.version@ == "retail"@
    &&& pre.version@ == "retail"@ ==> post.version@ == "classic"@
    &&& !spec_known_version(pre.version@) ==> post.version@ == "retail"@
    &&& spec_known_version(post.version@)
    &&& post.battlenet_id == pre.battlenet_id
    &&& post.use_lowercase == pre.use_lowercase
    &&& post.copy_feedback == pre.copy_feedback
}

impl App {
    pub fn new() -> (r: Self)
        ensures
            r.battlenet_id@ == Seq::<char>::empty(),
            r.use_lowercase == false,
            r.version@ == "retail"@,
            r.copy_feedback is None,
    {
        Self {
            battlenet_id: String::new(),
            use_lowercase: false,
            version: "retail".to_owned(),
            copy_feedback: None,
        }
    }

    /// Empties the identifier buffer; every other field is preserved.
    pub fn reset_input(&mut self)
        ensures
            final(self).battlenet_id@ == Seq::<char>::empty(),
            same_settings(*old(self), *final(self)),
    {
        self.battlenet_id = String::new();
    }

    /// Flips the version tag between the two recognized values; any other
    /// stored value resets to `"retail"`.
    pub fn toggle_version(&mut self)
        ensures
            spec_toggled_version(*old(self), *final(self)),
    {
        self.version = if str_eq(self.version.as_str(), "classic") {
            "retail".to_owned()
        } else if str_eq(self.version.as_str(), "retail") {
            "classic".to_owned()
        } else {
            "retail".to_owned()
        };
    }

    /// Appends one character to the identifier buffer.
    pub fn add_char(&mut self, c: char)
        ensures
            final(self).battlenet_id@ == old(self).battlenet_id@.push(c),
            same_settings(*old(self), *final(self)),
    {
        self.battlenet_id.push(c);
    }

    /// Removes the last character of the identifier buffer; a no-op when the
    /// buffer is empty.
    pub fn remove_char(&mut self)
        ensures
            old(self).battlenet_id@.len() == 0 ==> final(self).battlenet_id@ == old(
                self,
            ).battlenet_id@,
            old(self).battlenet_id@.len() > 0 ==> final(self).battlenet_id@ == old(
                self,
            ).battlenet_id@.drop_last(),
            same_settings(*old(self), *final(self)),
    {
        let _ = self.battlenet_id.pop();
    }

    /// Validates a name part: non-empty, every character ASCII alphanumeric.
    pub fn is_valid_name_part(&self, name_part: &str) -> (r: bool)
        ensures
            r == spec_valid_name(name_part@),
    {
        let n = name_part.unicode_len();
        if n == 0 {
            return false;
        }
        let mut i: usize = 0;
        while i < n
            invariant
                n == name_part@.len(),
                i <= n,
                forall|j: int| 0 <= j < i ==> spec_is_ascii_alphanumeric(#[trigger] name_part@[j]),
            decreases n - i,
        {
            if !is_ascii_alphanumeric_char(name_part.get_char(i)) {
                return false;
            }
            i += 1;
        }
        true
    }

    /// Validates a number part: at least `MIN_NUMBER_LENGTH` characters, all
    /// ASCII digits.
    pub fn is_valid_number_part(&self, number_part: &str) -> (r: bool)
        ensures
            r == spec_valid_number(number_part@),
    {
        let n = number_part.unicode_len();
        if n < MIN_NUMBER_LENGTH {
            return false;
        }
        let mut i: usize = 0;
        while i < n
            invariant
                n == number_part@.len(),
                i <= n,
                forall|j: int| 0 <= j < i ==> spec_is_ascii_digit(#[trigger] number_part@[j]),
            decreases n - i,
    {
            if !is_ascii_digit_char(number_part.get_char(i)) {
                return false;
            }
            i += 1;
        }
        true
    }

    /// Validates the identifier buffer against the `Name#Digits` grammar.
    pub fn is_valid_battlenet_id(&self) -> (r: bool)
        ensures
            r == spec_valid_id(self.battlenet_id@),
    {
        let ghost id: Seq<char> = self.battlenet_id@;
        let s = self.battlenet_id.as_str();
        let n = s.unicode_len();
        if n == 0 {
            return false;
        }
        let mut i: usize = 0;
        let mut hash_count: usize = 0;
        let mut hash_pos: usize = 0;
        let mut hash_pos2: usize = 0;
        while i < n
            invariant
                n == id.len(),
                s@ == id,
                i <= n,
                hash_count <= i,
                hash_count == 0 ==> forall|j: int| 0 <= j < i ==> id[j] != '#',
                hash_count == 1 ==> hash_pos < i && id[hash_pos as int] == '#' && forall|j: int|
                    0 <= j < i && j != hash_pos ==> id[j] != '#',
                hash_count >= 2 ==> hash_pos < hash_pos2 < i && id[hash_pos as int] == '#' && id[
                    hash_pos2 as int
                ] == '#',
            decreases n - i,
        {
            if s.get_char(i) == '#' {
                if hash_count == 0 {
                    hash_pos = i;
                } else if hash_count == 1 {
                    hash_pos2 = i;
                }
                hash_count = hash_count + 1;
            }
            i += 1;
        }
        if hash_count != 1 {
            proof {
                if spec_valid_id(id) {
                    let w = choose|w: int|
                        {
                            &&& 0 <= w < id.len()
                            &&& #[trigger] id[w] == '#'
                            &&& forall|j: int| 0 <= j < id.len() && j != w ==> id[j] != '#'
                            &&& spec_valid_name(id.subrange(0, w))
                            &&& spec_valid_number(id.subrange(w + 1, id.len() as int))
                        };
                    if hash_count == 0 {
                        assert(id[w] != '#');
                    } else {
                        if w == hash_pos as int {
                            assert(id[hash_pos2 as int] != '#');
                        } else {
                            assert(id[hash_pos as int] != '#');
                        }
                    }
                }
            }
            return false;
        }
        let p = hash_pos;
        let name_part = s.substring_char(0, p);
        let number_part = s.substring_char(p + 1, n);
        let valid = self.is_valid_name_part(name_part) && self.is_valid_number_part(number_part);
        proof {
            if valid {
                assert(id[p as int] == '#');
                assert(spec_valid_id(id));
            } else if spec_valid_id(id) {
                let w = choose|w: int|
                    {
                        &&& 0 <= w < id.len()
                        &&& #[trigger] id[w] == '#'
                        &&& forall|j: int| 0 <= j < id.len() && j != w ==> id[j] != '#'
                        &&& spec_valid_name(id.subrange(0, w))
                        &&& spec_valid_number(id.subrange(w + 1, id.len() as int))
                    };
                assert(w == p as int);
            }
        }
        valid
    }

    /// Filters the identifier buffer in place, keeping only ASCII
    /// alphanumerics and `'#'`.
    pub fn sanitize_input(&mut self)
        ensures
            final(self).battlenet_id@ == spec_sanitize(old(self).battlenet_id@),
            same_settings(*old(self), *final(self)),
    {
        let ghost orig: Seq<char> = self.battlenet_id@;
        let s = self.battlenet_id.as_str();
        let n = s.unicode_len();
        let mut out = String::new();
        let mut i: usize = 0;
        while i < n
            invariant
                n == orig.len(),
                s@ == orig,
                i <= n,
                out@ == spec_sanitize(orig.subrange(0, i as int)),
            decreases n - i,
        {
            let c = s.get_char(i);
            proof {
                assert(orig.subrange(0, i + 1).drop_last() =~= orig.subrange(0, i as int));
                assert(orig.subrange(0, i + 1).last() == c);
            }
            if is_id_char(c) {
                out.push(c);
            }
            i += 1;
        }
        proof {
            assert(orig.subrange(0, n as int) =~= orig);
        }
        self.battlenet_id = out;
    }

    /// Filters a candidate code, keeping only characters that can appear in
    /// padded Base64 text.
    pub fn clean_base64_string(&self, input: &str) -> (r: String)
        ensures
            r@ == spec_clean(input@),
    {
        let n = input.unicode_len();
        let mut out = String::new();
        let mut i: usize = 0;
        while i < n
            invariant
                n == input@.len(),
                i <= n,
                out@ == spec_clean(input@.subrange(0, i as int)),
            decreases n - i,
        {
            let c = input.get_char(i);
            proof {
                assert(input@.subrange(0, i + 1).drop_last() =~= input@.subrange(0, i as int));
                assert(input@.subrange(0, i + 1).last() == c);
            }
            if is_base64_char(c) {
                out.push(c);
            }
            i += 1;
        }
        proof {
            assert(input@.subrange(0, n as int) =~= input@);
        }
        out
    }

    /// Resolves the version tag to its configuration suffix; both recognized
    /// versions resolve to the same suffix.
    fn get_addon_config(&self) -> (r: Result<String, String>)
        ensures
            r is Ok <==> spec_known_version(self.version@),
            r matches Ok(c) ==> c@ == default_config(),
            r matches Err(e) ==> e@ == "Invalid version"@,
    {
        if str_eq(self.version.as_str(), "retail") || str_eq(self.version.as_str(), "classic") {
            Ok("vridtcetvrdice".to_owned())
        } else {
            Err("Invalid version".to_owned())
        }
    }

    /// Derives the unlock code: the identifier (lower-cased when the fold
    /// flag is set) plus the configuration suffix, Base64 encoded.  Fails
    /// exactly when the stored version tag is unrecognized.  The produced
    /// code always verifies against the identifier it was derived from.
    pub fn generate_code(&self) -> (r: Result<String, String>)
        ensures
            r is Ok <==> spec_known_version(self.version@),
            r matches Ok(code) ==> code@ == spec_code(self.battlenet_id@, self.use_lowercase),
            r matches Ok(code) ==> code@.len() > 0,
            r matches Ok(code) ==> spec_validates(self.battlenet_id@, code@),
            r matches Err(e) ==> e@ == "Invalid version"@,
    {
        let addon_config = match self.get_addon_config() {
            Ok(c) => c,
            Err(e) => {
                return Err(e);
            },
        };
        let mut input = if self.use_lowercase {
            lowercase(self.battlenet_id.as_str())
        } else {
            self.battlenet_id.clone()
        };
        input.append(addon_config.as_str());
        let code = base64_encode(input.as_str());
        proof {
            let ghost id: Seq<char> = self.battlenet_id@;
            let ghost payload: Seq<char> = spec_payload(id, self.use_lowercase);
            assert(input@ == payload);
            reveal_strlit("vridtcetvrdice");
            assert(payload.len() > 0);
            lemma_clean_all_base64(code@);
            vstd::utf8::encode_utf8_valid_utf8(payload);
            vstd::utf8::encode_utf8_decode_utf8(payload);
            assert(spec_decoded(code@) == Some(payload));
            assert(spec_match_one(payload, payload));
            assert(spec_matches(id, payload));
        }
        Ok(code)
    }

    /// Cleans and decodes a candidate code; `None` where the Base64 or UTF-8
    /// decoding step rejects it.
    fn decode_import_string(&self, encoded_string: &str) -> (r: Option<String>)
        ensures
            r is Some <==> spec_decoded(encoded_string@) is Some,
            r matches Some(d) ==> spec_decoded(encoded_string@) == Some(d@),
    {
        let cleaned = self.clean_base64_string(encoded_string);
        match base64_decode(cleaned.as_str()) {
            Some(bytes) => bytes_to_string(bytes),
            None => None,
        }
    }

    /// Verifies a candidate code against the current identifier: it must
    /// decode, and the decoded text must match an expected plaintext.
    /// Decode failures are absorbed into `false`.
    pub fn validate_code(&self, encoded_string: &str) -> (r: bool)
        ensures
            r == spec_validates(self.battlenet_id@, encoded_string@),
    {
        match self.decode_import_string(encoded_string) {
            Some(decoded) => self.matches_expected_format(decoded.as_str()),
            None => false,
        }
    }

    /// Matches a decoded plaintext against the four expected combinations.
    pub fn matches_expected_format(&self, decoded: &str) -> (r: bool)
        ensures
            r == spec_matches(self.battlenet_id@, decoded@),
    {
        let ghost id: Seq<char> = self.battlenet_id@;
        let expected_combinations = self.get_expected_combinations();
        let decoded_lower = lowercase(decoded);
        let n = expected_combinations.len();
        let mut k: usize = 0;
        while k < n
            invariant
                id == self.battlenet_id@,
                n == 4,
                n == expected_combinations@.len(),
                k <= n,
                decoded_lower@ == lower_of(decoded@),
                expected_combinations@[0]@ == lower_of(id) + wa4_config(),
                expected_combinations@[1]@ == id + wa4_config(),
                expected_combinations@[2]@ == lower_of(id) + wa5_config(),
                expected_combinations@[3]@ == id + wa5_config(),
                forall|j: int|
                    0 <= j < k ==> !spec_match_one(decoded@, #[trigger] expected_combinations@[j]@),
            decreases n - k,
        {
            if self.is_matching_combination(
                expected_combinations[k].as_str(),
                decoded,
                decoded_lower.as_str(),
            ) {
                proof {
                    if k == 0 {
                        assert(spec_match_one(decoded@, lower_of(id) + wa4_config()));
                    } else if k == 1 {
                        assert(spec_match_one(decoded@, id + wa4_config()));
                    } else if k == 2 {
                        assert(spec_match_one(decoded@, lower_of(id) + wa5_config()));
                    } else {
                        assert(spec_match_one(decoded@, id + wa5_config()));
                    }
                }
                return true;
            }
            k += 1;
        }
        false
    }

    /// One combination check: the decoded text equals the expected plaintext
    /// outright, or the two are equal after folding to lower case.
    pub fn is_matching_combination(&self, expected: &str, decoded: &str, decoded_lower: &str) -> (r:
        bool)
        requires
            decoded_lower@ == lower_of(decoded@),
        ensures
            r == spec_match_one(decoded@, expected@),
    {
        let expected_lower = lowercase(expected);
        str_eq(decoded_lower, expected_lower.as_str()) || str_eq(decoded, expected)
    }

    /// The four expected plaintexts: the identifier, lower-cased and as
    /// typed, followed by either historical configuration suffix.
    pub fn get_expected_combinations(&self) -> (r: Vec<String>)
        ensures
            r@.len() == 4,
            r@[0]@ == lower_of(self.battlenet_id@) + wa4_config(),
            r@[1]@ == self.battlenet_id@ + wa4_config(),
            r@[2]@ == lower_of(self.battlenet_id@) + wa5_config(),
            r@[3]@ == self.battlenet_id@ + wa5_config(),
    {
        let battlenet_lower = lowercase(self.battlenet_id.as_str());
        let configs = self.get_wa_config_strings();
        let mut combinations: Vec<String> = Vec::new();
        let c0 = configs[0];
        combinations.push(battlenet_lower.clone().concat(c0));
        combinations.push(self.battlenet_id.clone().concat(c0));
        let c1 = configs[1];
        combinations.push(battlenet_lower.clone().concat(c1));
        combinations.push(self.battlenet_id.clone().concat(c1));
        combinations
    }

    /// The two configuration suffixes, rebuilt from their byte values as the
    /// historical tooling stored them.
    pub fn get_wa_configs(&self) -> (r: (String, String))
        ensures
            r.0@ == "ctdveirvrtidce"@,
            r.1@ == "vridtcetvrdice"@,
    {
        let wa4 = self.build_wa_config(
            &[99, 116, 100, 118, 101, 105],
            &[114, 118, 114, 116, 105, 100, 99, 101],
        );
        let wa5 = self.build_wa_config(
            &[118, 114, 105, 100, 116, 99],
            &[101, 116, 118, 114, 100, 105, 99, 101],
        );
        proof {
            reveal_strlit("ctdveirvrtidce");
            reveal_strlit("vridtcetvrdice");
            assert(wa4@ =~= "ctdveirvrtidce"@);
            assert(wa5@ =~= "vridtcetvrdice"@);
        }
        (wa4, wa5)
    }

    /// Joins two byte arrays into one string, reading each byte as the
    /// character with that code point.
    pub fn build_wa_config(&self, part1: &[u8], part2: &[u8]) -> (r: String)
        ensures
            r@ == part1@.map_values(|b: u8| b as char) + part2@.map_values(|b: u8| b as char),
    {
        let mut out = String::new();
        let mut i: usize = 0;
        while i < part1.len()
            invariant
                i <= part1@.len(),
                out@ == part1@.subrange(0, i as int).map_values(|b: u8| b as char),
            decreases part1@.len() - i,
        {
            let c = part1[i] as char;
            proof {
                assert(part1@.subrange(0, i + 1).map_values(|b: u8| b as char) =~= part1@.subrange(
                    0,
                    i as int,
                ).map_values(|b: u8| b as char).push(part1@[i as int] as char));
            }
            out.push(c);
            i += 1;
        }
        let mut j: usize = 0;
        while j < part2.len()
            invariant
                j <= part2@.len(),
                out@ == part1@.map_values(|b: u8| b as char) + part2@.subrange(
                    0,
                    j as int,
                ).map_values(|b: u8| b as char),
            decreases part2@.len() - j,
        {
            let c = part2[j] as char;
            proof {
                assert(part2@.subrange(0, j + 1).map_values(|b: u8| b as char) =~= part2@.subrange(
                    0,
                    j as int,
                ).map_values(|b: u8| b as char).push(part2@[j as int] as char));
                assert(part1@.map_values(|b: u8| b as char) + part2@.subrange(0, j + 1).map_values(
                    |b: u8| b as char,
                ) =~= (part1@.map_values(|b: u8| b as char) + part2@.subrange(0, j as int).map_values(
                    |b: u8| b as char,
                )).push(part2@[j as int] as char));
            }
            out.push(c);
            j += 1;
        }
        proof {
            assert(part1@.subrange(0, part1@.len() as int) =~= part1@);
            assert(part2@.subrange(0, part2@.len() as int) =~= part2@);
        }
        out
    }

    /// The two historical configuration suffixes, legacy first.
    pub fn get_wa_config_strings(&self) -> (r: Vec<&'static str>)
        ensures
            r@.len() == 2,
            r@[0]@ == wa4_config(),
            r@[1]@ == wa5_config(),
    {
        let mut configs: Vec<&'static str> = Vec::new();
        configs.push("ctdveirvrtdice");
        configs.push("vridtcetvrdice");
        configs
    }
}

/// A text made only of Base64 characters passes the cleanup unchanged.
pub proof fn lemma_clean_all_base64(s: Seq<char>)
    requires
        forall|i: int| 0 <= i < s.len() ==> spec_is_base64_char(#[trigger] s[i]),
    ensures
        spec_clean(s) == s,
    decreases s.len(),
{
    if s.len() == 0 {
        assert(spec_clean(s) =~= s);
    } else {
        assert forall|i: int| 0 <= i < s.drop_last().len() implies spec_is_base64_char(
            #[trigger] s.drop_last()[i],
        ) by {
            assert(s.drop_last()[i] == s[i]);
        }
        lemma_clean_all_base64(s.drop_last());
        assert(spec_clean(s) =~= s);
    }
}

impl Default for App {
    fn default() -> (r: Self)
        ensures
            r.battlenet_id@ == Seq::<char>::empty(),
            r.use_lowercase == false,
            r.version@ == "retail"@,
            r.copy_feedback is None,
    {
        Self::new()
    }
}

/// The feedback expiry rule: a "copied" deadline set `COPY_FEEDBACK_EXPIRY_MS`
/// milliseconds or longer before `now_ms` is cleared; a younger one is kept.
pub fn update_copy_feedback(app: &mut App, now_ms: u64)
    ensures
        final(app).copy_feedback == match old(app).copy_feedback {
            Option::None => Option::<u64>::None,
            Option::Some(t) => if t + COPY_FEEDBACK_EXPIRY_MS <= now_ms {
                Option::<u64>::None
            } else {
                Option::Some(t)
            },
        },
        final(app).battlenet_id == old(app).battlenet_id,
        final(app).use_lowercase == old(app).use_lowercase,
        final(app).version == old(app).version,
{
    if let Some(t) = app.copy_feedback {
        if now_ms >= t && now_ms - t >= COPY_FEEDBACK_EXPIRY_MS {
            app.copy_feedback = None;
        }
    }
}

} // verus!
