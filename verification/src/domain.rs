//! Subscriber domain types: syntactic validation of email addresses and
//! subscriber names. Recipient addresses stored in the queue are validated
//! here at dequeue time; a malformed stored address is a permanent failure.

use vstd::prelude::*;
use vstd::string::StrSliceExecFns;
use vstd::string::StringExecFns;

verus! {

/// How many times a character occurs in a text.
pub open spec fn char_count(s: Seq<char>, c: char) -> int
    decreases s.len(),
{
    if s.len() == 0 {
        0
    } else {
        char_count(s.drop_last(), c) + if s.last() == c {
            1int
        } else {
            0int
        }
    }
}

/// A character occurs at most as often as the text is long, and never a
/// negative number of times.
pub proof fn lemma_char_count_bounds(s: Seq<char>, c: char)
    ensures
        0 <= char_count(s, c) <= s.len(),
    decreases s.len(),
{
    if s.len() > 0 {
        lemma_char_count_bounds(s.drop_last(), c);
    }
}

/// A character that occurs at some position is counted at least once.
pub proof fn lemma_char_count_positive(s: Seq<char>, c: char, i: int)
    requires
        0 <= i < s.len(),
        s[i] == c,
    ensures
        char_count(s, c) >= 1,
    decreases s.len(),
{
    lemma_char_count_bounds(s.drop_last(), c);
    if i < s.len() - 1 {
        lemma_char_count_positive(s.drop_last(), c, i);
        lemma_char_count_bounds(s, c);
    }
}

/// A syntactically acceptable email address: long enough, exactly one `@`
/// that is neither the first nor the last character, and no space anywhere.
pub open spec fn is_valid_email(s: Seq<char>) -> bool {
    &&& s.len() >= 3
    &&& char_count(s, '@') == 1
    &&& s[0] != '@'
    &&& s[s.len() - 1] != '@'
    &&& char_count(s, ' ') == 0
}

/// Decides `is_valid_email` for a given text.
pub fn validate_email(s: &str) -> (b: bool)
    ensures
        b == is_valid_email(s@),
{
    let n = s.unicode_len();
    if n < 3 {
        return false;
    }
    if s.get_char(0) == '@' || s.get_char(n - 1) == '@' {
        return false;
    }
    let mut at_count: usize = 0;
    let mut i: usize = 0;
    while i < n
        invariant
            n == s@.len(),
            i <= n,
            at_count <= i,
            at_count == char_count(s@.subrange(0, i as int), '@'),
            char_count(s@.subrange(0, i as int), ' ') == 0,
        decreases n - i,
    {
        let c = s.get_char(i);
        if c == ' ' {
            proof {
                lemma_char_count_positive(s@, ' ', i as int);
            }
            return false;
        }
        if c == '@' {
            at_count = at_count + 1;
        }
        i = i + 1;
        proof {
            assert(s@.subrange(0, i as int).drop_last() =~= s@.subrange(0, i - 1));
            assert(s@.subrange(0, i as int).last() == s@[i - 1]);
        }
    }
    proof {
        assert(s@.subrange(0, n as int) =~= s@);
    }
    at_count == 1
}

/// A character a subscriber name may not contain.
pub open spec fn forbidden_name_char(c: char) -> bool {
    c == '/' || c == '(' || c == ')' || c == '"' || c == '<' || c == '>' || c == '\\' || c == '{'
        || c == '}'
}

/// A syntactically acceptable subscriber name: not empty or all spaces, at
/// most 256 characters, and free of the forbidden characters.
pub open spec fn is_valid_name(s: Seq<char>) -> bool {
    &&& !(forall|i: int| 0 <= i < s.len() ==> s[i] == ' ')
    &&& s.len() <= 256
    &&& forall|i: int| 0 <= i < s.len() ==> !forbidden_name_char(#[trigger] s[i])
}

/// Decides `is_valid_name` for a given text.
pub fn validate_name(s: &str) -> (b: bool)
    ensures
        b == is_valid_name(s@),
{
    let n = s.unicode_len();
    if n > 256 {
        return false;
    }
    let mut has_mark: bool = false;
    let mut i: usize = 0;
    while i < n
        invariant
            n == s@.len(),
            i <= n,
            has_mark <==> exists|j: int| 0 <= j < i && s@[j] != ' ',
            forall|j: int| 0 <= j < i ==> !forbidden_name_char(#[trigger] s@[j]),
        decreases n - i,
    {
        let c = s.get_char(i);
        if c == '/' || c == '(' || c == ')' || c == '"' || c == '<' || c == '>' || c == '\\'
            || c == '{' || c == '}' {
            return false;
        }
        if c != ' ' {
            has_mark = true;
        }
        i = i + 1;
        proof {
            if s@[i - 1] != ' ' {
                assert(exists|j: int| 0 <= j < i && s@[j] != ' ');
            }
        }
    }
    if !has_mark {
        proof {
            assert(forall|j: int| 0 <= j < s@.len() ==> s@[j] == ' ');
        }
        return false;
    }
    true
}

/// A validated subscriber email address.
#[derive(Debug)]
pub struct SubscriberEmail {
    email: String,
}

impl View for SubscriberEmail {
    type V = Seq<char>;

    closed spec fn view(&self) -> Seq<char> {
        self.email@
    }
}

impl SubscriberEmail {
    /// Accepts an address exactly when it is syntactically valid, and keeps
    /// it verbatim; otherwise reports the offending text.
    pub fn parse(email: String) -> (r: Result<SubscriberEmail, String>)
        ensures
            r is Ok <==> is_valid_email(email@),
            r matches Ok(e) ==> e@ == email@,
            r matches Err(msg) ==> msg@ == email@ + " is not a valid subscriber email."@,
    {
        if validate_email(email.as_str()) {
            Ok(SubscriberEmail { email })
        } else {
            let mut msg = email;
            msg.append(" is not a valid subscriber email.");
            Err(msg)
        }
    }

    /// The address's text.
    pub fn as_str(&self) -> (r: &str)
        ensures
            r@ == self@,
    {
        self.email.as_str()
    }
}

/// A validated subscriber name.
#[derive(Debug)]
pub struct SubscriberName {
    name: String,
}

impl View for SubscriberName {
    type V = Seq<char>;

    closed spec fn view(&self) -> Seq<char> {
        self.name@
    }
}

impl SubscriberName {
    /// Accepts a name exactly when it is syntactically valid, and keeps it
    /// verbatim; otherwise reports the offending text.
    pub fn parse(name: String) -> (r: Result<SubscriberName, String>)
        ensures
            r is Ok <==> is_valid_name(name@),
            r matches Ok(n) ==> n@ == name@,
            r matches Err(msg) ==> msg@ == name@ + " is not a valid subscriber name."@,
    {
        if validate_name(name.as_str()) {
            Ok(SubscriberName { name })
        } else {
            let mut msg = name;
            msg.append(" is not a valid subscriber name.");
            Err(msg)
        }
    }

    /// The name's text.
    pub fn as_str(&self) -> (r: &str)
        ensures
            r@ == self@,
    {
        self.name.as_str()
    }
}

/// A subscriber whose details passed validation.
#[derive(Debug)]
pub struct NewSubscriber {
    pub email: SubscriberEmail,
    pub name: SubscriberName,
}

} // verus!
