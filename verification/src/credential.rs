//! Acquire-once credential providers for the SSH and directory-service
//! channels.
//!
//! A provider resolves its username/secret pair at most once per process
//! run: the front end asks the operator only when the provider still needs
//! the value, stores what was supplied, and every later access reuses the
//! cached value unchanged.  Storing is only permitted while the provider is
//! unresolved, so a resolved provider can never acquire a second time.  A
//! failed acquisition leaves the provider unresolved and is surfaced as an
//! error, never retried silently; a provider never proceeds with an empty
//! secret.

use vstd::prelude::*;

use crate::errors::CredentialError;

verus! {

/// A resolved username/secret pair for one channel.  It lives only for the
/// process duration and is never persisted.
#[derive(Debug, Clone)]
pub struct Credential {
    pub username: String,
    pub password: String,
}

/// The username an acquisition resolves to: the supplied name, or the
/// configured default when none (or an empty one) was given.
pub open spec fn spec_resolved_username(given: Option<String>, default_user: Seq<char>) -> Seq<
    char,
> {
    match given {
        Some(u) => if u@.len() > 0 {
            u@
        } else {
            default_user
        },
        None => default_user,
    }
}

/// Fetches username and password lazily at the first time; the fetching
/// happens only once, and both halves are stored together so the channel
/// never holds a resolved username with an unresolved secret.
pub struct SshCredential {
    pub default_ssh_user: String,
    pub username_password: Option<Credential>,
}

impl SshCredential {
    /// No acquisition happened yet; the first access will need one.
    pub open spec fn spec_needs_acquisition(&self) -> bool {
        self.username_password is None
    }

    pub open spec fn spec_username(&self) -> Option<Seq<char>> {
        match self.username_password {
            Some(c) => Some(c.username@),
            None => None,
        }
    }

    pub open spec fn spec_password(&self) -> Option<Seq<char>> {
        match self.username_password {
            Some(c) => Some(c.password@),
            None => None,
        }
    }

    pub fn new(default_ssh_user: String) -> (r: Self)
        ensures
            r.default_ssh_user == default_ssh_user,
            r.spec_needs_acquisition(),
    {
        SshCredential { default_ssh_user, username_password: None }
    }

    pub fn needs_acquisition(&self) -> (r: bool)
        ensures
            r == self.spec_needs_acquisition(),
    {
        matches!(self.username_password, None)
    }

    /// The default username the acquisition prompt should offer.
    pub fn default_username(&self) -> (r: &String)
        ensures
            r == self.default_ssh_user,
    {
        &self.default_ssh_user
    }

    /// Store the operator's answer of one acquisition: username and secret
    /// together.  A missing username falls back to the configured default;
    /// a missing or empty secret fails the acquisition and leaves the
    /// provider unresolved, so only a fresh prompt can resolve it.
    pub fn store_acquired(&mut self, given_username: Option<String>, given_password: Option<
        String,
    >) -> (r: Result<(), CredentialError>)
        requires
            old(self).spec_needs_acquisition(),
        ensures
            final(self).default_ssh_user == old(self).default_ssh_user,
            r is Ok <==> (given_password matches Some(p) && p@.len() > 0),
            r is Ok ==> (final(self).username_password matches Some(c) && c.username@
                == spec_resolved_username(given_username, old(self).default_ssh_user@)
                && Some(c.password) == given_password),
            r is Err ==> *final(self) == *old(self) && r == Err::<(), CredentialError>(
                CredentialError::NoPasswordProvided,
            ),
    {
        match given_password {
            Some(password) => {
                if password.as_str().unicode_len() == 0 {
                    return Err(CredentialError::NoPasswordProvided);
                }
                let username = match given_username {
                    Some(u) => {
                        if u.as_str().unicode_len() > 0 {
                            u
                        } else {
                            self.default_ssh_user.clone()
                        }
                    },
                    None => self.default_ssh_user.clone(),
                };
                self.username_password = Some(Credential { username, password });
                Ok(())
            },
            None => Err(CredentialError::NoPasswordProvided),
        }
    }

    /// Returns the given username of the user, or the default username if
    /// the user has given none — once the one acquisition happened.
    pub fn username(&self) -> (r: Option<&String>)
        ensures
            r is Some <==> self.spec_username() is Some,
            r matches Some(u) ==> self.spec_username() == Some(u@),
    {
        match &self.username_password {
            Some(c) => Some(&c.username),
            None => None,
        }
    }

    pub fn password(&self) -> (r: Option<&String>)
        ensures
            r is Some <==> self.spec_password() is Some,
            r matches Some(p) ==> self.spec_password() == Some(p@),
    {
        match &self.username_password {
            Some(c) => Some(&c.password),
            None => None,
        }
    }
}

/// A channel acquires at most once per process run and both halves are
/// resolved together: each accessor has a value exactly when the one
/// acquisition happened, so the channel never holds a resolved username
/// with an unresolved secret — and a resolved provider never admits
/// another store, since storing requires an unresolved one.
pub proof fn lemma_acquire_once(c: SshCredential)
    ensures
        c.spec_username() is Some <==> !c.spec_needs_acquisition(),
        c.spec_password() is Some <==> !c.spec_needs_acquisition(),
{
}

/// One discoverable key of an SSH agent, presented to the operator by its
/// comment.
#[derive(Debug, Clone)]
pub struct SshPublicKeySuggestion {
    pub comment: String,
}

impl SshPublicKeySuggestion {
    pub fn new(comment: String) -> (r: Self)
        ensures
            r.comment == comment,
    {
        SshPublicKeySuggestion { comment }
    }

    pub fn comment(&self) -> (r: &String)
        ensures
            r == self.comment,
    {
        &self.comment
    }
}

pub open spec fn spec_is_digit(c: char) -> bool {
    '0' <= c && c <= '9'
}

pub open spec fn spec_digit_val(c: char) -> int {
    c as int - '0' as int
}

pub open spec fn spec_all_digits(s: Seq<char>) -> bool {
    forall|i: int| 0 <= i < s.len() ==> spec_is_digit(#[trigger] s[i])
}

/// The value the decimal digit string denotes.
pub open spec fn spec_dec_val(s: Seq<char>) -> int
    decreases s.len(),
{
    if s.len() == 0 {
        0
    } else {
        spec_dec_val(s.drop_last()) * 10 + spec_digit_val(s.last())
    }
}

/// What a line of operator input denotes as a candidate index: defined
/// exactly for a nonempty all-digit string whose value fits the machine.
pub open spec fn spec_parse_index(s: Seq<char>) -> Option<int> {
    if s.len() > 0 && spec_all_digits(s) && spec_dec_val(s) <= usize::MAX {
        Some(spec_dec_val(s))
    } else {
        None
    }
}

proof fn lemma_dec_val_nonneg(s: Seq<char>)
    requires
        spec_all_digits(s),
    ensures
        spec_dec_val(s) >= 0,
    decreases s.len(),
{
    if s.len() > 0 {
        assert(spec_all_digits(s.drop_last()));
        lemma_dec_val_nonneg(s.drop_last());
        assert(spec_is_digit(s.last()));
    }
}

/// A digit string's value never falls below the value of any of its
/// prefixes: appending digits only grows the denoted value.
proof fn lemma_dec_val_prefix(s: Seq<char>, i: int)
    requires
        0 <= i <= s.len(),
        spec_all_digits(s),
    ensures
        spec_dec_val(s.take(i)) <= spec_dec_val(s),
    decreases s.len() - i,
{
    if i == s.len() {
        assert(s.take(i) =~= s);
    } else {
        assert(s.take(i + 1).drop_last() =~= s.take(i));
        assert(s.take(i + 1).last() == s[i]);
        assert(spec_all_digits(s.take(i)));
        lemma_dec_val_nonneg(s.take(i));
        assert(spec_is_digit(s[i]));
        assert(spec_dec_val(s.take(i + 1)) == spec_dec_val(s.take(i)) * 10 + spec_digit_val(s[i]));
        assert(spec_dec_val(s.take(i)) <= spec_dec_val(s.take(i + 1)));
        lemma_dec_val_prefix(s, i + 1);
    }
}

/// Parse a line of operator input as a decimal candidate index.  Returns
/// the denoted value exactly when the line is a nonempty all-digit string
/// whose value fits the machine, and nothing otherwise.
pub fn parse_index(line: &str) -> (r: Option<usize>)
    ensures
        r is Some <==> spec_parse_index(line@) is Some,
        r matches Some(v) ==> spec_parse_index(line@) == Some(v as int),
{
    let n = line.unicode_len();
    if n == 0 {
        return None;
    }
    let mut i: usize = 0;
    let mut val: usize = 0;
    while i < n
        invariant
            n == line@.len(),
            0 < n,
            0 <= i <= n,
            spec_all_digits(line@.take(i as int)),
            val as int == spec_dec_val(line@.take(i as int)),
        decreases n - i,
    {
        let c = line.get_char(i);
        if c < '0' || c > '9' {
            proof {
                assert(!spec_is_digit(line@[i as int]));
            }
            return None;
        }
        let d: u32 = (c as u32) - ('0' as u32);
        proof {
            assert(line@.take(i + 1).drop_last() =~= line@.take(i as int));
            assert(line@.take(i + 1).last() == line@[i as int]);
            assert(d as int == spec_digit_val(line@[i as int]));
        }
        let scaled = match val.checked_mul(10) {
            Some(s) => s,
            None => {
                proof {
                    lemma_overflow_means_unparsable(line@, i as int, val as int, d as int);
                }
                return None;
            },
        };
        let next_val = match scaled.checked_add(d as usize) {
            Some(s) => s,
            None => {
                proof {
                    lemma_overflow_means_unparsable(line@, i as int, val as int, d as int);
                }
                return None;
            },
        };
        val = next_val;
        i = i + 1;
    }
    proof {
        assert(line@.take(n as int) =~= line@);
    }
    Some(val)
}

/// If the value accumulated over a digit prefix already exceeds the
/// machine range at the next digit, the whole line denotes no index.
proof fn lemma_overflow_means_unparsable(s: Seq<char>, i: int, val: int, d: int)
    requires
        0 <= i < s.len(),
        spec_all_digits(s.take(i)),
        spec_is_digit(s[i]),
        val == spec_dec_val(s.take(i)),
        d == spec_digit_val(s[i]),
        val * 10 + d > usize::MAX,
    ensures
        spec_parse_index(s) is None,
{
    if spec_all_digits(s) {
        assert(s.take(i + 1).drop_last() =~= s.take(i));
        assert(s.take(i + 1).last() == s[i]);
        assert(spec_dec_val(s.take(i + 1)) == val * 10 + d);
        lemma_dec_val_prefix(s, i + 1);
        assert(spec_dec_val(s) > usize::MAX);
    }
}

/// Per-channel CLI credential provider.  Unlike the SSH pair cache, the
/// command-line flow resolves username and password through two separate
/// prompts, each at most once, with the same default rule for the
/// username and the same refusal of a missing or empty password.
#[derive(Debug, Clone)]
pub struct CliSshCredential {
    pub default_ssh_user: String,
    pub username: Option<String>,
    pub password: Option<String>,
}

impl CliSshCredential {
    pub fn new(default_ssh_user: String) -> (r: Self)
        ensures
            r.default_ssh_user == default_ssh_user,
            r.username is None,
            r.password is None,
    {
        CliSshCredential { default_ssh_user, username: None, password: None }
    }

    pub fn needs_username(&self) -> (r: bool)
        ensures
            r == (self.username is None),
    {
        matches!(self.username, None)
    }

    pub fn needs_password(&self) -> (r: bool)
        ensures
            r == (self.password is None),
    {
        matches!(self.password, None)
    }

    /// Store the operator's answer to the username prompt; an empty or
    /// missing answer falls back to the configured default.
    pub fn store_username(&mut self, given: Option<String>)
        requires
            old(self).username is None,
        ensures
            final(self).default_ssh_user == old(self).default_ssh_user,
            final(self).password == old(self).password,
            final(self).username matches Some(u) && u@ == spec_resolved_username(
                given,
                old(self).default_ssh_user@,
            ),
    {
        let username = match given {
            Some(u) => {
                if u.as_str().unicode_len() > 0 {
                    u
                } else {
                    self.default_ssh_user.clone()
                }
            },
            None => self.default_ssh_user.clone(),
        };
        self.username = Some(username);
    }

    /// Store the operator's answer to the password prompt; a missing or
    /// empty answer fails and leaves the provider unresolved.
    pub fn store_password(&mut self, given: Option<String>) -> (r: Result<(), CredentialError>)
        requires
            old(self).password is None,
        ensures
            final(self).default_ssh_user == old(self).default_ssh_user,
            final(self).username == old(self).username,
            r is Ok <==> (given matches Some(p) && p@.len() > 0),
            r is Ok ==> final(self).password == given,
            r is Err ==> *final(self) == *old(self) && r == Err::<(), CredentialError>(
                CredentialError::NoPasswordProvided,
            ),
    {
        match given {
            Some(p) => {
                if p.as_str().unicode_len() == 0 {
                    return Err(CredentialError::NoPasswordProvided);
                }
                self.password = Some(p);
                Ok(())
            },
            None => Err(CredentialError::NoPasswordProvided),
        }
    }

    pub fn username(&self) -> (r: Option<&String>)
        ensures
            r is Some <==> self.username is Some,
            r matches Some(u) ==> Some(*u) == self.username,
    {
        match &self.username {
            Some(u) => Some(u),
            None => None,
        }
    }

    pub fn password(&self) -> (r: Option<&String>)
        ensures
            r is Some <==> self.password is Some,
            r matches Some(p) ==> Some(*p) == self.password,
    {
        match &self.password {
            Some(p) => Some(p),
            None => None,
        }
    }

    /// Decide the operator's choice among the discovered agent keys,
    /// returning the chosen index itself.  A missing line and a line that
    /// denotes no number are rejected — an empty line is never a valid
    /// selection — and so is any index that denotes no candidate: in
    /// particular the off-by-one index equal to the candidate count is
    /// rejected, not clamped, and with no candidates every choice is an
    /// error.
    pub fn auth_agent_resolve(&self, many_keys: &Vec<SshPublicKeySuggestion>, given_line: Option<
        String,
    >) -> (r: Result<usize, CredentialError>)
        ensures
            given_line is None ==> r == Err::<usize, CredentialError>(
                CredentialError::NoInputSupplied,
            ),
            given_line matches Some(l) ==> match spec_parse_index(l@) {
                None => r == Err::<usize, CredentialError>(CredentialError::NoInputSupplied),
                Some(c) => if c < many_keys@.len() {
                    r matches Ok(k) && k == c
                } else {
                    r == Err::<usize, CredentialError>(CredentialError::InvalidKeyIndex)
                },
            },
    {
        let length = many_keys.len();
        let line = match given_line {
            Some(l) => l,
            None => {
                return Err(CredentialError::NoInputSupplied);
            },
        };
        let user_choice = match parse_index(line.as_str()) {
            Some(c) => c,
            None => {
                return Err(CredentialError::NoInputSupplied);
            },
        };
        if user_choice < length {
            Ok(user_choice)
        } else {
            Err(CredentialError::InvalidKeyIndex)
        }
    }
}

} // verus!
