use unicode_segmentation::UnicodeSegmentation;
use vstd::prelude::*;

verus! {

/// Longest accepted name, counted in grapheme clusters.
pub const MAX_NAME_GRAPHEMES: usize = 256;

/// What the user-perceived character count of a string is: the number of
/// extended grapheme clusters in it.
pub uninterp spec fn grapheme_count_of(s: Seq<char>) -> nat;

/// Relies on `UnicodeSegmentation::graphemes(s, true).count()` from
/// unicode-segmentation: the number of extended grapheme clusters of `s`,
/// which depends on the characters of `s` alone.
#[verifier::external_body]
fn count_graphemes(s: &str) -> (n: usize)
    ensures
        n as nat == grapheme_count_of(s@),
{
    s.graphemes(true).count()
}

/// Unicode's `White_Space` property, the set that `str::trim` strips.
pub open spec fn is_white_space(c: char) -> bool {
    let u = c as u32;
    (0x09 <= u && u <= 0x0D) || u == 0x20 || u == 0x85 || u == 0xA0 || u == 0x1680
        || (0x2000 <= u && u <= 0x200A) || u == 0x2028 || u == 0x2029 || u == 0x202F
        || u == 0x205F || u == 0x3000
}

/// Empty, or white space only: what remains after trimming is empty.
pub open spec fn is_blank(s: Seq<char>) -> bool {
    forall|i: int| 0 <= i < s.len() ==> is_white_space(#[trigger] s[i])
}

/// The characters that a subscriber name may not hold.
pub open spec fn is_forbidden_name_char(c: char) -> bool {
    c == '/' || c == '(' || c == ')' || c == '"' || c == '<' || c == '>' || c == '\\'
        || c == '{' || c == '}'
}

pub open spec fn has_forbidden_name_char(s: Seq<char>) -> bool {
    exists|i: int| 0 <= i < s.len() && is_forbidden_name_char(#[trigger] s[i])
}

/// The name rules, given the grapheme count of the name.
pub open spec fn name_rules_hold(s: Seq<char>, graphemes: nat) -> bool {
    !is_blank(s) && graphemes <= MAX_NAME_GRAPHEMES && !has_forbidden_name_char(s)
}

/// A valid subscriber name.
pub open spec fn valid_name(s: Seq<char>) -> bool {
    name_rules_hold(s, grapheme_count_of(s))
}

fn white_space(c: char) -> (r: bool)
    ensures
        r == is_white_space(c),
{
    let u = c as u32;
    (0x09 <= u && u <= 0x0D) || u == 0x20 || u == 0x85 || u == 0xA0 || u == 0x1680
        || (0x2000 <= u && u <= 0x200A) || u == 0x2028 || u == 0x2029 || u == 0x202F
        || u == 0x205F || u == 0x3000
}

fn forbidden_name_char(c: char) -> (r: bool)
    ensures
        r == is_forbidden_name_char(c),
{
    c == '/' || c == '(' || c == ')' || c == '"' || c == '<' || c == '>' || c == '\\'
        || c == '{' || c == '}'
}

/// Whether `s` is empty or white space only.
pub fn blank(s: &str) -> (r: bool)
    ensures
        r == is_blank(s@),
{
    let n = s.unicode_len();
    let mut i: usize = 0;
    while i < n
        invariant
            n == s@.len(),
            i <= n,
            forall|j: int| 0 <= j < i ==> is_white_space(#[trigger] s@[j]),
        decreases n - i,
    {
        if !white_space(s.get_char(i)) {
            return false;
        }
        i = i + 1;
    }
    true
}

/// Whether `s` holds one of the forbidden characters.
pub fn contains_forbidden_name_char(s: &str) -> (r: bool)
    ensures
        r == has_forbidden_name_char(s@),
{
    let n = s.unicode_len();
    let mut i: usize = 0;
    while i < n
        invariant
            n == s@.len(),
            i <= n,
            forall|j: int| 0 <= j < i ==> !is_forbidden_name_char(#[trigger] s@[j]),
        decreases n - i,
    {
        if forbidden_name_char(s.get_char(i)) {
            return true;
        }
        i = i + 1;
    }
    false
}

/// The name rules, with the grapheme count of `s` given.
pub fn name_is_acceptable(s: &str, graphemes: usize) -> (r: bool)
    ensures
        r == name_rules_hold(s@, graphemes as nat),
{
    !(blank(s) || graphemes > MAX_NAME_GRAPHEMES || contains_forbidden_name_char(s))
}

/// Whether `s` is a valid subscriber name: not blank, at most 256 grapheme
/// clusters long, and free of `/ ( ) " < > \ { }`.
pub fn is_valid_name(s: &str) -> (r: bool)
    ensures
        r == valid_name(s@),
{
    let graphemes = count_graphemes(s);
    name_is_acceptable(s, graphemes)
}

/// Longest accepted email address, in characters.
pub const MAX_EMAIL_LEN: usize = 254;

/// Longest accepted local part (before the `@`), in characters.
pub const MAX_LOCAL_PART_LEN: usize = 64;

pub open spec fn is_ascii_alnum(c: char) -> bool {
    let u = c as u32;
    (0x30 <= u && u <= 0x39) || (0x41 <= u && u <= 0x5A) || (0x61 <= u && u <= 0x7A)
}

/// A character of a dot-separated atom: in the local part, a letter, a digit
/// or one of ``! # $ % & ' * + - / = ? ^ _ ` { | } ~``; in the domain, a letter,
/// a digit or `-`.
pub open spec fn is_atom_char(c: char, domain: bool) -> bool {
    if domain {
        is_ascii_alnum(c) || c == '-'
    } else {
        is_ascii_alnum(c) || c == '!' || c == '#' || c == '$' || c == '%' || c == '&' || c
            == '\'' || c == '*' || c == '+' || c == '-' || c == '/' || c == '=' || c == '?' || c
            == '^' || c == '_' || c == '`' || c == '{' || c == '|' || c == '}' || c == '~'
    }
}

/// Non-empty atoms joined by single dots.
pub open spec fn is_dotted_atoms(s: Seq<char>, domain: bool) -> bool {
    &&& s.len() > 0
    &&& s[0] != '.'
    &&& s[s.len() - 1] != '.'
    &&& forall|i: int| 0 <= i < s.len() ==> #[trigger] s[i] == '.' || is_atom_char(s[i], domain)
    &&& forall|i: int| 0 <= i < s.len() - 1 ==> !(#[trigger] s[i] == '.' && s[i + 1] == '.')
}

/// No domain label starts or ends with a hyphen.
pub open spec fn hyphens_inside_labels(s: Seq<char>) -> bool {
    forall|i: int|
        0 <= i < s.len() && #[trigger] s[i] == '-' ==> 0 < i < s.len() - 1 && s[i - 1] != '.'
            && s[i + 1] != '.'
}

pub open spec fn valid_local_part(s: Seq<char>) -> bool {
    s.len() <= MAX_LOCAL_PART_LEN && is_dotted_atoms(s, false)
}

pub open spec fn valid_domain(s: Seq<char>) -> bool {
    is_dotted_atoms(s, true) && hyphens_inside_labels(s)
}

/// Split at `@` into a valid local part and a valid domain.
pub open spec fn splits_as_email_at(s: Seq<char>, k: int) -> bool {
    0 <= k < s.len() && s[k] == '@' && valid_local_part(s.subrange(0, k)) && valid_domain(
        s.subrange(k + 1, s.len() as int),
    )
}

/// A valid email address: `local@domain`, at most 254 characters.
pub open spec fn valid_email(s: Seq<char>) -> bool {
    s.len() <= MAX_EMAIL_LEN && exists|k: int| splits_as_email_at(s, k)
}

fn ascii_alnum(c: char) -> (r: bool)
    ensures
        r == is_ascii_alnum(c),
{
    let u = c as u32;
    (0x30 <= u && u <= 0x39) || (0x41 <= u && u <= 0x5A) || (0x61 <= u && u <= 0x7A)
}

fn atom_char(c: char, domain: bool) -> (r: bool)
    ensures
        r == is_atom_char(c, domain),
{
    if domain {
        ascii_alnum(c) || c == '-'
    } else {
        ascii_alnum(c) || c == '!' || c == '#' || c == '$' || c == '%' || c == '&' || c == '\''
            || c == '*' || c == '+' || c == '-' || c == '/' || c == '=' || c == '?' || c == '^'
            || c == '_' || c == '`' || c == '{' || c == '|' || c == '}' || c == '~'
    }
}

fn dotted_atoms(s: &str, domain: bool) -> (r: bool)
    ensures
        r == is_dotted_atoms(s@, domain),
{
    let n = s.unicode_len();
    if n == 0 {
        return false;
    }
    if s.get_char(0) == '.' || s.get_char(n - 1) == '.' {
        return false;
    }
    let mut i: usize = 0;
    while i < n
        invariant
            n == s@.len(),
            n > 0,
            i <= n,
            forall|j: int| 0 <= j < i ==> #[trigger] s@[j] == '.' || is_atom_char(s@[j], domain),
            forall|j: int| 0 <= j < i && j < n - 1 ==> !(#[trigger] s@[j] == '.' && s@[j + 1] == '.'),
        decreases n - i,
    {
        let c = s.get_char(i);
        if c != '.' && !atom_char(c, domain) {
            return false;
        }
        if c == '.' && i + 1 < n && s.get_char(i + 1) == '.' {
            return false;
        }
        i = i + 1;
    }
    true
}

fn hyphens_placed_well(s: &str) -> (r: bool)
    ensures
        r == hyphens_inside_labels(s@),
{
    let n = s.unicode_len();
    let mut i: usize = 0;
    while i < n
        invariant
            n == s@.len(),
            i <= n,
            forall|j: int|
                0 <= j < i && #[trigger] s@[j] == '-' ==> 0 < j < n - 1 && s@[j - 1] != '.'
                    && s@[j + 1] != '.',
        decreases n - i,
    {
        if s.get_char(i) == '-' {
            if i == 0 || i + 1 >= n {
                return false;
            }
            if s.get_char(i - 1) == '.' || s.get_char(i + 1) == '.' {
                return false;
            }
        }
        i = i + 1;
    }
    true
}

/// Whether `s` is a valid email address (see `valid_email`).
pub fn is_valid_email(s: &str) -> (r: bool)
    ensures
        r == valid_email(s@),
{
    let n = s.unicode_len();
    if n > MAX_EMAIL_LEN {
        return false;
    }
    let mut k: usize = 0;
    while k < n && s.get_char(k) != '@'
        invariant
            n == s@.len(),
            k <= n,
            forall|j: int| 0 <= j < k ==> #[trigger] s@[j] != '@',
        decreases n - k,
    {
        k = k + 1;
    }
    if k == n {
        assert forall|m: int| !splits_as_email_at(s@, m) by {
            if 0 <= m < s@.len() {
                assert(s@[m] != '@');
            }
        }
        return false;
    }
    let local = s.substring_char(0, k);
    let domain = s.substring_char(k + 1, n);
    let r = k <= MAX_LOCAL_PART_LEN && dotted_atoms(local, false) && dotted_atoms(domain, true)
        && hyphens_placed_well(domain);
    assert(r == splits_as_email_at(s@, k as int));
    if !r {
        assert forall|m: int| !splits_as_email_at(s@, m) by {
            if splits_as_email_at(s@, m) && m != k {
                if m < k {
                    assert(s@[m] != '@');
                } else {
                    let lp = s@.subrange(0, m);
                    assert(lp[k as int] == s@[k as int]);
                    assert(lp[k as int] == '.' || is_atom_char(lp[k as int], false));
                }
            }
        }
    }
    r
}

/// Why a submitted name or email was refused.
#[derive(Clone, Copy, Debug, PartialEq, Eq, Structural)]
pub enum ValidationError {
    MissingName,
    MissingEmail,
    InvalidName,
    InvalidEmail,
}

/// A subscriber name that passed `is_valid_name`.
#[derive(Debug)]
pub struct SubscriberName(String);

impl View for SubscriberName {
    type V = Seq<char>;

    closed spec fn view(&self) -> Seq<char> {
        self.0@
    }
}

impl SubscriberName {
    /// Accepts `s` exactly when it is a valid name.
    pub fn parse(s: String) -> (r: Result<SubscriberName, ValidationError>)
        ensures
            valid_name(s@) <==> r is Ok,
            r is Ok ==> r->Ok_0@ == s@,
            r is Err ==> r->Err_0 == ValidationError::InvalidName,
    {
        if is_valid_name(s.as_str()) {
            Ok(SubscriberName(s))
        } else {
            Err(ValidationError::InvalidName)
        }
    }

    pub fn as_str(&self) -> (r: &str)
        ensures
            r@ == self@,
    {
        self.0.as_str()
    }
}

/// An email address that passed `is_valid_email`.
#[derive(Debug)]
pub struct SubscriberEmail(String);

impl View for SubscriberEmail {
    type V = Seq<char>;

    closed spec fn view(&self) -> Seq<char> {
        self.0@
    }
}

impl SubscriberEmail {
    /// Accepts `s` exactly when it is a valid email address.
    pub fn parse(s: String) -> (r: Result<SubscriberEmail, ValidationError>)
        ensures
            valid_email(s@) <==> r is Ok,
            r is Ok ==> r->Ok_0@ == s@,
            r is Err ==> r->Err_0 == ValidationError::InvalidEmail,
    {
        if is_valid_email(s.as_str()) {
            Ok(SubscriberEmail(s))
        } else {
            Err(ValidationError::InvalidEmail)
        }
    }

    pub fn as_str(&self) -> (r: &str)
        ensures
            r@ == self@,
    {
        self.0.as_str()
    }

    /// A second copy of the same address.
    pub fn duplicate(&self) -> (r: SubscriberEmail)
        ensures
            r@ == self@,
    {
        SubscriberEmail(String::from_str(self.0.as_str()))
    }
}

/// A validated signup: an email address and a name.
#[derive(Debug)]
pub struct NewSubscriber {
    pub email: SubscriberEmail,
    pub name: SubscriberName,
}

/// The submitted signup form, both fields present.
#[derive(Debug)]
pub struct FormData {
    pub email: String,
    pub name: String,
}

/// The first refusal that a submission meets: a missing name, a missing
/// email, an invalid name, then an invalid email.
pub open spec fn submission_error(name: Option<Seq<char>>, email: Option<Seq<char>>) -> Option<
    ValidationError,
> {
    if name is None {
        Some(ValidationError::MissingName)
    } else if email is None {
        Some(ValidationError::MissingEmail)
    } else if !valid_name(name->Some_0) {
        Some(ValidationError::InvalidName)
    } else if !valid_email(email->Some_0) {
        Some(ValidationError::InvalidEmail)
    } else {
        None
    }
}

pub open spec fn opt_view(o: Option<String>) -> Option<Seq<char>> {
    match o {
        Some(s) => Some(s@),
        None => None,
    }
}

impl NewSubscriber {
    /// Validates a complete form: the name first, then the email.
    pub fn try_from(value: FormData) -> (r: Result<NewSubscriber, ValidationError>)
        ensures
            r is Ok <==> valid_name(value.name@) && valid_email(value.email@),
            r is Ok ==> r->Ok_0.name@ == value.name@ && r->Ok_0.email@ == value.email@,
            r is Err ==> Some(r->Err_0) == submission_error(Some(value.name@), Some(value.email@)),
    {
        let name = match SubscriberName::parse(value.name) {
            Ok(n) => n,
            Err(e) => return Err(e),
        };
        let email = match SubscriberEmail::parse(value.email) {
            Ok(e) => e,
            Err(e) => return Err(e),
        };
        Ok(NewSubscriber { email, name })
    }
}

/// Validates a submission whose fields may be missing.
pub fn parse_submission(name: Option<String>, email: Option<String>) -> (r: Result<
    NewSubscriber,
    ValidationError,
>)
    ensures
        r is Ok <==> submission_error(opt_view(name), opt_view(email)) is None,
        r is Ok ==> Some(r->Ok_0.name@) == opt_view(name) && Some(r->Ok_0.email@) == opt_view(
            email,
        ),
        r is Err ==> Some(r->Err_0) == submission_error(opt_view(name), opt_view(email)),
{
    match (name, email) {
        (None, _) => Err(ValidationError::MissingName),
        (Some(_), None) => Err(ValidationError::MissingEmail),
        (Some(name), Some(email)) => NewSubscriber::try_from(FormData { email, name }),
    }
}

/// A submission with the name or the email missing, or both, is refused.
pub proof fn lemma_missing_field_is_refused(name: Option<Seq<char>>, email: Option<Seq<char>>)
    requires
        name is None || email is None,
    ensures
        submission_error(name, email) is Some,
{
}

/// A submission with an empty name, an empty email or an email outside the
/// grammar is refused.
pub proof fn lemma_invalid_field_is_refused(name: Seq<char>, email: Seq<char>)
    requires
        name.len() == 0 || email.len() == 0 || !valid_email(email),
    ensures
        submission_error(Some(name), Some(email)) is Some,
{
    if email.len() == 0 {
        assert(!valid_email(email));
    }
}

/// A submission whose name and email are both valid is accepted.
pub proof fn lemma_valid_fields_are_accepted(name: Seq<char>, email: Seq<char>)
    requires
        valid_name(name),
        valid_email(email),
    ensures
        submission_error(Some(name), Some(email)) is None,
{
}

} // verus!
