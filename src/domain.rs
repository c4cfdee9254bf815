//! Validated identity values of a subscriber.

use vstd::prelude::*;

verus! {

/// The most characters a subscriber name may hold.
pub const MAX_NAME_LENGTH: usize = 256;

/// Unicode `White_Space`, the set that `char::is_whitespace` tests.
pub open spec fn is_whitespace_char(c: char) -> bool {
    let u = c as u32;
    ||| 0x09 <= u <= 0x0D
    ||| u == 0x20
    ||| u == 0x85
    ||| u == 0xA0
    ||| u == 0x1680
    ||| 0x2000 <= u <= 0x200A
    ||| u == 0x2028
    ||| u == 0x2029
    ||| u == 0x202F
    ||| u == 0x205F
    ||| u == 0x3000
}

/// Unicode general category `Cc`, the set that `char::is_control` tests.
pub open spec fn is_control_char(c: char) -> bool {
    let u = c as u32;
    u <= 0x1F || (0x7F <= u <= 0x9F)
}

/// Characters a subscriber name may never hold.
pub open spec fn is_forbidden_name_char(c: char) -> bool {
    ||| is_control_char(c)
    ||| c == '/'
    ||| c == '('
    ||| c == ')'
    ||| c == '"'
    ||| c == '<'
    ||| c == '>'
    ||| c == '\\'
    ||| c == '{'
    ||| c == '}'
}

/// Every character is whitespace (true of the empty string).
pub open spec fn is_blank(s: Seq<char>) -> bool {
    forall|i: int| 0 <= i < s.len() ==> is_whitespace_char(#[trigger] s[i])
}

pub open spec fn valid_subscriber_name(s: Seq<char>) -> bool {
    &&& !is_blank(s)
    &&& s.len() <= MAX_NAME_LENGTH
    &&& forall|i: int| 0 <= i < s.len() ==> !is_forbidden_name_char(#[trigger] s[i])
}

fn char_is_whitespace(c: char) -> (r: bool)
    ensures
        r == is_whitespace_char(c),
{
    let u = c as u32;
    (0x09 <= u && u <= 0x0D) || u == 0x20 || u == 0x85 || u == 0xA0 || u == 0x1680 || (0x2000
        <= u && u <= 0x200A) || u == 0x2028 || u == 0x2029 || u == 0x202F || u == 0x205F || u
        == 0x3000
}

fn char_is_forbidden_in_name(c: char) -> (r: bool)
    ensures
        r == is_forbidden_name_char(c),
{
    let u = c as u32;
    u <= 0x1F || (0x7F <= u && u <= 0x9F) || c == '/' || c == '(' || c == ')' || c == '"' || c
        == '<' || c == '>' || c == '\\' || c == '{' || c == '}'
}

/// A name is refused when it holds a forbidden character, is longer than the
/// bound, or is empty.
pub proof fn lemma_name_rejections(s: Seq<char>, i: int)
    ensures
        0 <= i < s.len() && is_forbidden_name_char(s[i]) ==> !valid_subscriber_name(s),
        s.len() > MAX_NAME_LENGTH ==> !valid_subscriber_name(s),
        s.len() == 0 ==> !valid_subscriber_name(s),
{
}

/// A subscriber's name: not blank, at most `MAX_NAME_LENGTH` characters, and
/// free of control characters and of `/ ( ) " < > \ { }`.
#[derive(Debug)]
pub struct SubscriberName {
    value: String,
}

impl Clone for SubscriberName {
    fn clone(&self) -> (r: SubscriberName)
        ensures
            r == *self,
    {
        proof {
            use_type_invariant(self);
        }
        SubscriberName { value: self.value.clone() }
    }
}

impl View for SubscriberName {
    type V = Seq<char>;

    closed spec fn view(&self) -> Seq<char> {
        self.value@
    }
}

impl SubscriberName {
    #[verifier::type_invariant]
    closed spec fn wf(self) -> bool {
        valid_subscriber_name(self.value@)
    }

    /// Accepts `s` exactly when it is a valid subscriber name.
    pub fn parse(s: String) -> (r: Result<SubscriberName, String>)
        ensures
            r is Ok <==> valid_subscriber_name(s@),
            r matches Ok(n) ==> n@ == s@,
            r matches Err(m) ==> m@ == s@ + " is not a valid subscriber name."@,
    {
        let n = s.as_str().unicode_len();
        let mut blank = true;
        let mut forbidden = false;
        let mut i: usize = 0;
        while i < n
            invariant
                n == s@.len(),
                i <= n,
                blank == is_blank(s@.subrange(0, i as int)),
                forbidden == exists|j: int| 0 <= j < i && is_forbidden_name_char(#[trigger] s@[j]),
            decreases n - i,
        {
            let c = s.as_str().get_char(i);
            if !char_is_whitespace(c) {
                blank = false;
            }
            if char_is_forbidden_in_name(c) {
                forbidden = true;
            }
            proof {
                let prev = s@.subrange(0, i as int);
                let next = s@.subrange(0, i + 1);
                assert(forall|j: int| 0 <= j < i ==> next[j] == prev[j]);
                if !is_whitespace_char(c) {
                    assert(!is_whitespace_char(next[i as int]));
                }
            }
            i = i + 1;
        }
        assert(s@.subrange(0, n as int) =~= s@);
        if blank || n > MAX_NAME_LENGTH || forbidden {
            let mut m = s.clone();
            m.append(" is not a valid subscriber name.");
            Err(m)
        } else {
            Ok(SubscriberName { value: s })
        }
    }

    /// The validated name.
    pub fn as_ref(&self) -> (r: &str)
        ensures
            r@ == self@,
            valid_subscriber_name(r@),
    {
        proof {
            use_type_invariant(self);
        }
        self.value.as_str()
    }
}

pub open spec fn is_ascii_alphanumeric_char(c: char) -> bool {
    ('a' <= c <= 'z') || ('A' <= c <= 'Z') || ('0' <= c <= '9')
}

/// Characters of the part before `@`: the `atext` of RFC 5322 and `.`.
pub open spec fn is_local_part_char(c: char) -> bool {
    ||| is_ascii_alphanumeric_char(c)
    ||| c == '.' || c == '!' || c == '#' || c == '$' || c == '%' || c == '&' || c == '\''
    ||| c == '*' || c == '+' || c == '-' || c == '/' || c == '=' || c == '?' || c == '^'
    ||| c == '_' || c == '`' || c == '{' || c == '|' || c == '}' || c == '~'
}

/// Characters of the part after `@`: letters, digits, `-` and `.`.
pub open spec fn is_domain_char(c: char) -> bool {
    is_ascii_alphanumeric_char(c) || c == '-' || c == '.'
}

/// Non-empty atoms separated by single dots: not empty, no dot first or
/// last, no two dots in a row.
pub open spec fn is_dot_separated(s: Seq<char>) -> bool {
    &&& s.len() > 0
    &&& s[0] != '.'
    &&& s[s.len() - 1] != '.'
    &&& forall|i: int| 0 <= i < s.len() - 1 ==> !(#[trigger] s[i] == '.' && s[i + 1] == '.')
}

pub open spec fn valid_local_part(s: Seq<char>) -> bool {
    &&& is_dot_separated(s)
    &&& forall|i: int| 0 <= i < s.len() ==> is_local_part_char(#[trigger] s[i])
}

/// A domain holds at least two labels.
pub open spec fn valid_domain(s: Seq<char>) -> bool {
    &&& is_dot_separated(s)
    &&& forall|i: int| 0 <= i < s.len() ==> is_domain_char(#[trigger] s[i])
    &&& exists|i: int| 0 <= i < s.len() && #[trigger] s[i] == '.'
}

/// `local@domain`, the `@` splitting the string into a valid local part and a
/// valid domain.
pub open spec fn valid_email_at(s: Seq<char>, k: int) -> bool {
    &&& 0 <= k < s.len()
    &&& s[k] == '@'
    &&& valid_local_part(s.subrange(0, k))
    &&& valid_domain(s.subrange(k + 1, s.len() as int))
}

pub open spec fn valid_subscriber_email(s: Seq<char>) -> bool {
    exists|k: int| valid_email_at(s, k)
}

/// An address is refused when it holds no `@`, or when nothing follows its
/// only `@` (no domain).
pub proof fn lemma_email_rejections(s: Seq<char>)
    ensures
        (forall|k: int| 0 <= k < s.len() ==> s[k] != '@') ==> !valid_subscriber_email(s),
        (forall|k: int| 0 <= k < s.len() && s[k] == '@' ==> k == s.len() - 1)
            ==> !valid_subscriber_email(s),
{
    if valid_subscriber_email(s) {
        let k = choose|k: int| valid_email_at(s, k);
        assert(s[k] == '@');
        assert(s.subrange(k + 1, s.len() as int).len() > 0);
    }
}

fn char_is_ascii_alphanumeric(c: char) -> (r: bool)
    ensures
        r == is_ascii_alphanumeric_char(c),
{
    ('a' <= c && c <= 'z') || ('A' <= c && c <= 'Z') || ('0' <= c && c <= '9')
}

fn char_is_local_part(c: char) -> (r: bool)
    ensures
        r == is_local_part_char(c),
{
    char_is_ascii_alphanumeric(c) || c == '.' || c == '!' || c == '#' || c == '$' || c == '%'
        || c == '&' || c == '\'' || c == '*' || c == '+' || c == '-' || c == '/' || c == '='
        || c == '?' || c == '^' || c == '_' || c == '`' || c == '{' || c == '|' || c == '}' || c
        == '~'
}

fn char_is_domain(c: char) -> (r: bool)
    ensures
        r == is_domain_char(c),
{
    char_is_ascii_alphanumeric(c) || c == '-' || c == '.'
}

/// Checks `valid_local_part` (or, with `domain`, `valid_domain`) of the
/// characters of `s` in `lo..hi`.
fn check_part(s: &str, lo: usize, hi: usize, domain: bool) -> (r: bool)
    requires
        lo <= hi <= s@.len(),
    ensures
        r == (if domain {
            valid_domain(s@.subrange(lo as int, hi as int))
        } else {
            valid_local_part(s@.subrange(lo as int, hi as int))
        }),
{
    let ghost p = s@.subrange(lo as int, hi as int);
    if lo == hi {
        return false;
    }
    let first = s.get_char(lo);
    let last = s.get_char(hi - 1);
    let mut ok = first != '.' && last != '.';
    let mut has_dot = false;
    let mut prev_dot = false;
    let mut i: usize = lo;
    while i < hi
        invariant
            lo < hi <= s@.len(),
            lo <= i <= hi,
            p == s@.subrange(lo as int, hi as int),
            ok == (p[0] != '.' && p[p.len() - 1] != '.'
                && (forall|j: int| 0 <= j < i - lo - 1 ==> !(#[trigger] p[j] == '.' && p[j + 1] == '.'))
                && (forall|j: int| 0 <= j < i - lo ==> (if domain {
                    is_domain_char(#[trigger] p[j])
                } else {
                    is_local_part_char(p[j])
                }))),
            has_dot == exists|j: int| 0 <= j < i - lo && #[trigger] p[j] == '.',
            i > lo ==> prev_dot == (p[i - lo - 1] == '.'),
        decreases hi - i,
    {
        let c = s.get_char(i);
        assert(c == p[i - lo]);
        let allowed = if domain {
            char_is_domain(c)
        } else {
            char_is_local_part(c)
        };
        if !allowed || (i > lo && prev_dot && c == '.') {
            ok = false;
        }
        if c == '.' {
            has_dot = true;
        }
        prev_dot = c == '.';
        i = i + 1;
    }
    assert(p.len() == hi - lo);
    if domain {
        ok && has_dot
    } else {
        ok
    }
}

/// A subscriber's email address: `local@domain`, where the local part is made
/// of the characters of RFC 5322's `atext` and dots, and the domain of two or
/// more labels of letters, digits and `-`; no part begins or ends with a dot
/// or holds two dots in a row.
#[derive(Debug, Eq, Hash, PartialOrd, Ord)]
pub struct SubscriberEmail {
    value: String,
}

impl Clone for SubscriberEmail {
    fn clone(&self) -> (r: SubscriberEmail)
        ensures
            r == *self,
    {
        proof {
            use_type_invariant(self);
        }
        SubscriberEmail { value: self.value.clone() }
    }
}

impl PartialEq for SubscriberEmail {
    fn eq(&self, other: &SubscriberEmail) -> (r: bool) {
        self.value == other.value
    }
}

impl vstd::std_specs::cmp::PartialEqSpecImpl for SubscriberEmail {
    open spec fn obeys_eq_spec() -> bool {
        true
    }

    open spec fn eq_spec(&self, other: &SubscriberEmail) -> bool {
        self@ == other@
    }
}

impl View for SubscriberEmail {
    type V = Seq<char>;

    closed spec fn view(&self) -> Seq<char> {
        self.value@
    }
}

impl SubscriberEmail {
    #[verifier::type_invariant]
    closed spec fn wf(self) -> bool {
        valid_subscriber_email(self.value@)
    }

    /// Accepts `s` exactly when it is a valid email address.
    pub fn parse(s: String) -> (r: Result<SubscriberEmail, String>)
        ensures
            r is Ok <==> valid_subscriber_email(s@),
            r matches Ok(e) ==> e@ == s@,
            r matches Err(m) ==> m@ == s@ + " is not a valid subscriber email."@,
    {
        let n = s.as_str().unicode_len();
        let mut k: usize = 0;
        while k < n && s.as_str().get_char(k) != '@'
            invariant
                n == s@.len(),
                k <= n,
                forall|j: int| 0 <= j < k ==> #[trigger] s@[j] != '@',
            decreases n - k,
        {
            k = k + 1;
        }
        let ok = k < n && check_part(s.as_str(), 0, k, false) && check_part(
            s.as_str(),
            k + 1,
            n,
            true,
        );
        proof {
            if ok {
                assert(valid_email_at(s@, k as int));
            } else {
                assert forall|k2: int| !valid_email_at(s@, k2) by {
                    if valid_email_at(s@, k2) {
                        if k2 > k {
                            let l = s@.subrange(0, k2);
                            assert(l[k as int] == '@');
                            assert(!is_local_part_char(l[k as int]));
                        }
                    }
                }
            }
        }
        if ok {
            Ok(SubscriberEmail { value: s })
        } else {
            let mut m = s.clone();
            m.append(" is not a valid subscriber email.");
            Err(m)
        }
    }

    /// The validated address.
    pub fn as_ref(&self) -> (r: &str)
        ensures
            r@ == self@,
            valid_subscriber_email(r@),
    {
        proof {
            use_type_invariant(self);
        }
        self.value.as_str()
    }
}

/// The fields of a subscription request, as they arrived.
#[derive(Debug)]
pub struct SubscriptionRequest {
    pub email: String,
    pub name: String,
}

impl Clone for SubscriptionRequest {
    fn clone(&self) -> (r: SubscriptionRequest)
        ensures
            r == *self,
    {
        SubscriptionRequest { email: self.email.clone(), name: self.name.clone() }
    }
}

/// A subscriber whose name and email have both been validated; nothing else
/// reaches storage.
#[derive(Debug)]
pub struct NewSubscriber {
    pub email: SubscriberEmail,
    pub name: SubscriberName,
}

impl Clone for NewSubscriber {
    fn clone(&self) -> (r: NewSubscriber)
        ensures
            r == *self,
    {
        NewSubscriber { email: self.email.clone(), name: self.name.clone() }
    }
}

impl NewSubscriber {
    /// Validates the name, then the email; the first failure is returned.
    pub fn try_from(request: SubscriptionRequest) -> (r: Result<NewSubscriber, String>)
        ensures
            r is Ok <==> valid_subscriber_name(request.name@) && valid_subscriber_email(
                request.email@,
            ),
            r matches Ok(s) ==> s.name@ == request.name@ && s.email@ == request.email@,
            r matches Err(m) ==> m@ == if !valid_subscriber_name(request.name@) {
                request.name@ + " is not a valid subscriber name."@
            } else {
                request.email@ + " is not a valid subscriber email."@
            },
    {
        let name = SubscriberName::parse(request.name)?;
        let email = SubscriberEmail::parse(request.email)?;
        Ok(NewSubscriber { email, name })
    }
}

} // verus!
