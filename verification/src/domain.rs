//! Validation of candidate subscriber names and email addresses: the sole
//! gate before any subscriber is persisted.

use vstd::prelude::*;

verus! {

/// Unicode code points with the White_Space property, as `str::trim` uses.
pub open spec fn is_whitespace_char(c: char) -> bool {
    (c as u32) == 0x0009 || (c as u32) == 0x000A || (c as u32) == 0x000B
        || (c as u32) == 0x000C || (c as u32) == 0x000D || (c as u32) == 0x0020
        || (c as u32) == 0x0085 || (c as u32) == 0x00A0 || (c as u32) == 0x1680
        || (0x2000 <= (c as u32) && (c as u32) <= 0x200A) || (c as u32) == 0x2028
        || (c as u32) == 0x2029 || (c as u32) == 0x202F || (c as u32) == 0x205F
        || (c as u32) == 0x3000
}

/// Characters a subscriber name must not contain.
pub open spec fn forbidden_character(c: char) -> bool {
    c == '/' || c == '(' || c == ')' || c == '"' || c == '<' || c == '>'
        || c == '\\' || c == '{' || c == '}' || c == '~'
}

/// True when every character is whitespace; holds of the empty string, so
/// this is exactly "empty after trimming".
pub open spec fn all_whitespace(s: Seq<char>) -> bool {
    forall|i: int| 0 <= i < s.len() ==> is_whitespace_char(#[trigger] s[i])
}

pub open spec fn contains_forbidden_character(s: Seq<char>) -> bool {
    exists|i: int| 0 <= i < s.len() && forbidden_character(#[trigger] s[i])
}

/// Number of extended grapheme clusters in a string. What a grapheme cluster
/// is takes the Unicode segmentation rules to say, so the count is only
/// named here; `count_graphemes` computes it.
pub uninterp spec fn grapheme_count(s: Seq<char>) -> nat;

/// Relies on `unicode_segmentation::UnicodeSegmentation::graphemes` (with
/// extended grapheme clusters): the count is a function of the characters
/// alone.
#[verifier::external_body]
fn count_graphemes(s: &str) -> (n: usize)
    ensures
        n as nat == grapheme_count(s@),
{
    unicode_segmentation::UnicodeSegmentation::graphemes(s, true).count()
}

/// A valid subscriber name: not empty or whitespace-only after trimming, at
/// most 256 grapheme clusters, and free of the forbidden characters.
pub open spec fn valid_name(s: Seq<char>) -> bool {
    &&& !all_whitespace(s)
    &&& grapheme_count(s) <= 256
    &&& !contains_forbidden_character(s)
}

/// A valid mailbox shape: a non-empty local part, exactly one `@`, and a
/// domain containing at least one dot. No DNS/MX verification is implied.
pub open spec fn valid_email(s: Seq<char>) -> bool {
    exists|i: int| 0 <= i < s.len() && #[trigger] splits_as_mailbox(s, i)
}

/// `i` is the position of the sole `@`, the local part before it is
/// non-empty, and a `.` occurs after it.
pub open spec fn splits_as_mailbox(s: Seq<char>, i: int) -> bool {
    &&& 1 <= i < s.len()
    &&& s[i] == '@'
    &&& forall|j: int| 0 <= j < s.len() && j != i ==> s[j] != '@'
    &&& exists|k: int| i < k < s.len() && s[k] == '.'
}

/// A subscriber name that passed validation.
pub struct SubscriberName(String);

impl View for SubscriberName {
    type V = Seq<char>;

    closed spec fn view(&self) -> Seq<char> {
        self.0@
    }
}

impl SubscriberName {
    pub open spec fn wf(&self) -> bool {
        valid_name(self@)
    }

    /// Accepts exactly the valid names and returns them unchanged.
    pub fn parse(s: String) -> (r: Result<SubscriberName, String>)
        ensures
            r is Ok <==> valid_name(s@),
            r matches Ok(n) ==> n@ == s@ && n.wf(),
            r matches Err(m) ==> m@ == "not a valid subscriber name"@,
    {
        let len = s.as_str().unicode_len();
        let mut i: usize = 0;
        let mut seen_non_whitespace = false;
        while i < len
            invariant
                0 <= i <= len,
                len == s@.len(),
                seen_non_whitespace <==> exists|j: int|
                    0 <= j < i && !is_whitespace_char(#[trigger] s@[j]),
                forall|j: int| 0 <= j < i ==> !forbidden_character(#[trigger] s@[j]),
            decreases len - i,
        {
            let c = s.as_str().get_char(i);
            if c == '/' || c == '(' || c == ')' || c == '"' || c == '<' || c == '>'
                || c == '\\' || c == '{' || c == '}' || c == '~' {
                return Err(String::from_str("not a valid subscriber name"));
            }
            if !((c as u32) == 0x0009 || (c as u32) == 0x000A || (c as u32) == 0x000B
                || (c as u32) == 0x000C || (c as u32) == 0x000D || (c as u32) == 0x0020
                || (c as u32) == 0x0085 || (c as u32) == 0x00A0 || (c as u32) == 0x1680
                || (0x2000 <= (c as u32) && (c as u32) <= 0x200A) || (c as u32) == 0x2028
                || (c as u32) == 0x2029 || (c as u32) == 0x202F || (c as u32) == 0x205F
                || (c as u32) == 0x3000) {
                seen_non_whitespace = true;
            }
            i = i + 1;
        }
        if !seen_non_whitespace {
            return Err(String::from_str("not a valid subscriber name"));
        }
        if count_graphemes(s.as_str()) > 256 {
            return Err(String::from_str("not a valid subscriber name"));
        }
        Ok(SubscriberName(s))
    }

    pub fn as_str(&self) -> (r: &str)
        ensures
            r@ == self@,
    {
        self.0.as_str()
    }

    pub fn as_string(&self) -> (r: &String)
        ensures
            r@ == self@,
    {
        &self.0
    }
}

/// An email address that passed validation.
pub struct SubscriberEmail(String);

impl View for SubscriberEmail {
    type V = Seq<char>;

    closed spec fn view(&self) -> Seq<char> {
        self.0@
    }
}

impl SubscriberEmail {
    pub open spec fn wf(&self) -> bool {
        valid_email(self@)
    }

    /// Accepts exactly the valid mailbox shapes and returns them unchanged.
    pub fn parse(s: String) -> (r: Result<SubscriberEmail, String>)
        ensures
            r is Ok <==> valid_email(s@),
            r matches Ok(e) ==> e@ == s@ && e.wf(),
            r matches Err(m) ==> m@ == "not a valid email address"@,
    {
        let len = s.as_str().unicode_len();
        let mut i: usize = 0;
        let mut at_pos: usize = 0;
        let mut at_count: usize = 0;
        while i < len
            invariant
                0 <= i <= len,
                len == s@.len(),
                at_count <= i,
                at_count == 0 ==> forall|j: int| 0 <= j < i ==> s@[j] != '@',
                at_count == 1 ==> 0 <= at_pos < i && s@[at_pos as int] == '@'
                    && forall|j: int|
                    0 <= j < i && j != at_pos ==> #[trigger] s@[j] != '@',
                at_count >= 2 ==> exists|j1: int, j2: int|
                    #![trigger s@[j1], s@[j2]]
                    0 <= j1 < j2 < i && s@[j1] == '@' && s@[j2] == '@',
            decreases len - i,
        {
            if s.as_str().get_char(i) == '@' {
                at_pos = i;
                at_count = at_count + 1;
            }
            i = i + 1;
        }
        if at_count != 1 || at_pos == 0 {
            assert(forall|p: int| 0 <= p < s@.len() ==> !splits_as_mailbox(s@, p));
            return Err(String::from_str("not a valid email address"));
        }
        let mut k: usize = at_pos + 1;
        while k < len
            invariant
                at_pos < k <= len,
                1 <= at_pos < len,
                len == s@.len(),
                s@[at_pos as int] == '@',
                forall|j: int| 0 <= j < len && j != at_pos ==> #[trigger] s@[j] != '@',
                forall|j: int| at_pos < j < k ==> s@[j] != '.',
            decreases len - k,
        {
            if s.as_str().get_char(k) == '.' {
                assert(splits_as_mailbox(s@, at_pos as int));
                return Ok(SubscriberEmail(s));
            }
            k = k + 1;
        }
        assert(forall|p: int| 0 <= p < s@.len() && p != at_pos ==> !splits_as_mailbox(
            s@,
            p,
        ));
        assert(!splits_as_mailbox(s@, at_pos as int));
        Err(String::from_str("not a valid email address"))
    }

    pub fn as_str(&self) -> (r: &str)
        ensures
            r@ == self@,
    {
        self.0.as_str()
    }

    pub fn as_string(&self) -> (r: &String)
        ensures
            r@ == self@,
    {
        &self.0
    }
}

/// A fully validated candidate subscriber, ready to be persisted.
pub struct NewSubscriber {
    pub email: SubscriberEmail,
    pub name: SubscriberName,
}

impl NewSubscriber {
    pub open spec fn wf(&self) -> bool {
        self.name.wf() && self.email.wf()
    }

    /// Validates both fields; fails on the first invalid one, name first.
    pub fn parse(name: String, email: String) -> (r: Result<NewSubscriber, String>)
        ensures
            r is Ok <==> valid_name(name@) && valid_email(email@),
            r matches Ok(n) ==> n.name@ == name@ && n.email@ == email@ && n.wf(),
            r matches Err(m) ==> !valid_name(name@) && m@ == "not a valid subscriber name"@
                || valid_name(name@) && !valid_email(email@) && m@
                == "not a valid email address"@,
    {
        let name = match SubscriberName::parse(name) {
            Ok(n) => n,
            Err(m) => {
                return Err(m);
            },
        };
        let email = match SubscriberEmail::parse(email) {
            Ok(e) => e,
            Err(m) => {
                return Err(m);
            },
        };
        Ok(NewSubscriber { email, name })
    }
}

} // verus!
