//! Syntactic validation of emails, namespaces, display names and
//! descriptions. Availability (uniqueness) is a separate, transactional
//! check against the namespace table; these rules answer only "is this
//! shape legal".

use vstd::prelude::*;

use crate::consts;
use crate::errors::Error;
use crate::service::Service;
use crate::text::bytes_eq;
use crate::text::lower_bytes;
use vstd::string::StringSliceAdditionalSpecFns;
use vstd::utf8::encode_utf8;

verus! {

/// Whether the Unicode standard classes `c` as alphabetic; the result of
/// `char::is_alphabetic`, a function of the character alone.
pub uninterp spec fn alphabetic_char(c: char) -> bool;

/// Whether the Unicode standard classes `c` as numeric; the result of
/// `char::is_numeric`, a function of the character alone.
pub uninterp spec fn numeric_char(c: char) -> bool;

/// Relies on `char::is_alphabetic`: deterministic in the character.
#[verifier::external_body]
fn is_alphabetic_char(c: char) -> (r: bool)
    ensures
        r == alphabetic_char(c),
{
    c.is_alphabetic()
}

/// Relies on `char::is_numeric`: deterministic in the character.
#[verifier::external_body]
fn is_numeric_char(c: char) -> (r: bool)
    ensures
        r == numeric_char(c),
{
    c.is_numeric()
}

/// Every byte of the candidate is in the namespace alphabet.
pub open spec fn alphabet_ok(svc: Service, s: Seq<u8>) -> bool {
    forall|i: int| 0 <= i < s.len() ==> svc.in_alphabet(#[trigger] s[i])
}

/// The separator is neither doubled nor at an end of the candidate.
pub open spec fn sep_ok(s: Seq<u8>) -> bool {
    &&& forall|i: int| 0 <= i < s.len() - 1 ==> !((#[trigger] s[i]) == 45 && s[i + 1] == 45)
    &&& s.len() > 0 ==> s[0] != 45 && s[s.len() - 1] != 45
}

/// The first rule a namespace candidate breaks, in order: length, reserved
/// word, alphabet, separator placement; `None` if it is legal.
pub open spec fn namespace_error(svc: Service, s: Seq<u8>) -> Option<Error> {
    if s.len() > consts::NAMESPACE_MAX_LENGTH {
        Some(Error::NamespaceIsTooLong)
    } else if s.len() < consts::NAMESPACE_MIN_LENGTH {
        Some(Error::NamespaceIsTooShort)
    } else if svc.reserved(s) {
        Some(Error::InvalidNamespace)
    } else if !alphabet_ok(svc, s) {
        Some(Error::InvalidNamespace)
    } else if !sep_ok(s) {
        Some(Error::InvalidNamespace)
    } else {
        None
    }
}

/// `p` is the position of the only `@` of a well-shaped email: local part
/// and domain are non-empty, the domain contains a dot, and every byte is
/// printable ASCII.
pub open spec fn email_split_at(s: Seq<u8>, p: int) -> bool {
    &&& 0 < p < s.len() - 1
    &&& s[p] == 64
    &&& forall|q: int| 0 <= q < s.len() && q != p ==> (#[trigger] s[q]) != 64
    &&& exists|d: int| p < d < s.len() && (#[trigger] s[d]) == 46
    &&& forall|q: int| 0 <= q < s.len() ==> 33 <= (#[trigger] s[q]) <= 126
}

/// The candidate parses as `local@domain` with the shape above.
pub open spec fn email_shape_ok(s: Seq<u8>) -> bool {
    exists|p: int| email_split_at(s, p)
}

/// The domain equals one of the blocklisted domains of the configuration.
pub open spec fn domain_blocked(svc: Service, d: Seq<u8>) -> bool {
    exists|i: int|
        0 <= i < svc.config.mail.domains_blocklist@.len() && encode_utf8(
            (#[trigger] svc.config.mail.domains_blocklist@[i])@,
        ) == d
}

/// The candidate's domain is blocklisted.
pub open spec fn email_domain_blocked(svc: Service, s: Seq<u8>) -> bool {
    exists|p: int|
        #[trigger] email_split_at(s, p) && domain_blocked(svc, s.subrange(p + 1, s.len() as int))
}

/// A legal email: non-empty, well-shaped, already lowercase, and (when
/// disposable domains are rejected) not on the blocklist.
pub open spec fn email_ok(svc: Service, s: Seq<u8>, reject_disposable: bool) -> bool {
    &&& s.len() > 0
    &&& email_shape_ok(s)
    &&& s == lower_bytes(s)
    &&& reject_disposable ==> !email_domain_blocked(svc, s)
}

/// A display-name character: alphabetic, numeric, or one of `- _ . '` and
/// space.
pub open spec fn name_char_ok(c: char) -> bool {
    alphabetic_char(c) || numeric_char(c) || c == '-' || c == '_' || c == '.' || c == ' ' || c
        == '\''
}

/// No doubled punctuation (`--`, `__`, `..`, `''`) inside a display name.
pub open spec fn name_pairs_ok(s: Seq<char>) -> bool {
    forall|i: int|
        0 <= i < s.len() - 1 ==> !((#[trigger] s[i]) == s[i + 1] && (s[i] == '-' || s[i] == '_'
            || s[i] == '.' || s[i] == '\''))
}

/// The first rule a display name breaks, over the given length bounds and
/// error variants; `None` if it is legal. As in the storage schema, the
/// length bounds are on the UTF-8 byte length.
pub open spec fn name_error(
    s: Seq<char>,
    byte_len: nat,
    min: nat,
    max: nat,
    too_long: Error,
    too_short: Error,
    invalid: Error,
) -> Option<Error> {
    if byte_len > max {
        Some(too_long)
    } else if byte_len < min {
        Some(too_short)
    } else if !(forall|i: int| 0 <= i < s.len() ==> name_char_ok(#[trigger] s[i])) {
        Some(invalid)
    } else if !name_pairs_ok(s) {
        Some(invalid)
    } else {
        None
    }
}

/// Whether a byte sits in the vector.
fn byte_in(v: &Vec<u8>, b: u8) -> (r: bool)
    ensures
        r == v@.contains(b),
{
    let n = v.len();
    let mut i: usize = 0;
    while i < n
        invariant
            0 <= i <= n,
            n == v@.len(),
            forall|t: int| 0 <= t < i ==> v@[t] != b,
        decreases n - i,
    {
        if v[i] == b {
            return true;
        }
        i = i + 1;
    }
    false
}

impl Service {
    /// Whether the candidate equals one of the reserved words.
    fn is_reserved(&self, s: &[u8]) -> (r: bool)
        ensures
            r == self.reserved(s@),
    {
        let n = self.invalid_namespaces.len();
        let mut i: usize = 0;
        while i < n
            invariant
                0 <= i <= n,
                n == self.invalid_namespaces@.len(),
                forall|t: int| 0 <= t < i ==> (#[trigger] self.invalid_namespaces@[t])@ != s@,
            decreases n - i,
        {
            if bytes_eq(self.invalid_namespaces[i].as_slice(), s) {
                return true;
            }
            i = i + 1;
        }
        false
    }

    /// Rules a namespace candidate, given as bytes, in order: length within
    /// bounds, not reserved, alphabet only, separator well-placed.
    #[verifier::loop_isolation(false)]
    pub fn validate_namespace_bytes(&self, namespace: &[u8]) -> (r: Result<(), Error>)
        ensures
            r is Ok <==> namespace_error(*self, namespace@) is None,
            r matches Err(e) ==> Some(e) == namespace_error(*self, namespace@),
    {
        let len = namespace.len();
        if len > consts::NAMESPACE_MAX_LENGTH {
            return Err(Error::NamespaceIsTooLong);
        }
        if len < consts::NAMESPACE_MIN_LENGTH {
            return Err(Error::NamespaceIsTooShort);
        }
        if self.is_reserved(namespace) {
            return Err(Error::InvalidNamespace);
        }
        let mut i: usize = 0;
        while i < len
            invariant
                0 <= i <= len,
                len == namespace@.len(),
                forall|t: int| 0 <= t < i ==> self.in_alphabet(#[trigger] namespace@[t]),
            decreases len - i,
        {
            if !byte_in(&self.valid_namespace_alphabet, namespace[i]) {
                return Err(Error::InvalidNamespace);
            }
            i = i + 1;
        }
        if namespace[0] == 45 || namespace[len - 1] == 45 {
            return Err(Error::InvalidNamespace);
        }
        let mut j: usize = 0;
        while j + 1 < len
            invariant
                0 <= j <= len,
                len == namespace@.len(),
                forall|t: int| 0 <= t < j ==> !((#[trigger] namespace@[t]) == 45 && namespace@[t + 1] == 45),
            decreases len - j,
        {
            if namespace[j] == 45 && namespace[j + 1] == 45 {
                return Err(Error::InvalidNamespace);
            }
            j = j + 1;
        }
        Ok(())
    }

    /// Rules a namespace candidate (usernames and group paths share these
    /// rules and one namespace).
    pub fn validate_namespace(&self, namespace: &str) -> (r: Result<(), Error>)
        ensures
            r is Ok <==> namespace_error(*self, namespace.spec_bytes()) is None,
            r matches Err(e) ==> Some(e) == namespace_error(*self, namespace.spec_bytes()),
    {
        self.validate_namespace_bytes(namespace.as_bytes())
    }

    /// Rules a username: usernames are namespace paths, with no extra rules.
    pub fn validate_username(&self, username: &str) -> (r: Result<(), Error>)
        ensures
            r is Ok <==> namespace_error(*self, username.spec_bytes()) is None,
            r matches Err(e) ==> Some(e) == namespace_error(*self, username.spec_bytes()),
    {
        self.validate_namespace(username)
    }

    /// Rules an email candidate given as bytes.
    #[verifier::loop_isolation(false)]
    pub fn validate_email_bytes(&self, email: &[u8], reject_disposable: bool) -> (r: Result<
        (),
        Error,
    >)
        ensures
            r is Ok <==> email_ok(*self, email@, reject_disposable),
            r is Err ==> r matches Err(Error::EmailIsInvalid),
    {
        let len = email.len();
        if len == 0 {
            return Err(Error::EmailIsInvalid);
        }
        let mut at: usize = 0;
        let mut seen_at: bool = false;
        let mut i: usize = 0;
        while i < len
            invariant
                0 <= i <= len,
                len == email@.len(),
                seen_at ==> at < i && email@[at as int] == 64,
                forall|q: int| 0 <= q < i && q != at ==> (#[trigger] email@[q]) != 64,
                !seen_at ==> forall|q: int| 0 <= q < i ==> (#[trigger] email@[q]) != 64,
                forall|q: int| 0 <= q < i ==> 33 <= (#[trigger] email@[q]) <= 126,
            decreases len - i,
        {
            let b = email[i];
            if b < 33 || b > 126 {
                return Err(Error::EmailIsInvalid);
            }
            if b == 64 {
                if seen_at {
                    proof {
                        assert forall|p: int| !email_split_at(email@, p) by {
                            if email_split_at(email@, p) {
                                if p != at as int {
                                    assert(email@[at as int] != 64);
                                } else {
                                    assert(email@[i as int] != 64);
                                }
                            }
                        }
                    }
                    return Err(Error::EmailIsInvalid);
                }
                at = i;
                seen_at = true;
            }
            i = i + 1;
        }
        if !seen_at {
            proof {
                assert forall|p: int| !email_split_at(email@, p) by {
                    if 0 < p < email@.len() - 1 {
                        assert(email@[p] != 64);
                    }
                }
            }
            return Err(Error::EmailIsInvalid);
        }
        if at == 0 || at == len - 1 {
            proof {
                assert forall|p: int| !email_split_at(email@, p) by {
                    if email_split_at(email@, p) && p != at as int {
                        assert(email@[at as int] != 64);
                    }
                }
            }
            return Err(Error::EmailIsInvalid);
        }
        let mut d: usize = at + 1;
        let mut dot: bool = false;
        while d < len && !dot
            invariant
                at < d <= len,
                len == email@.len(),
                !dot ==> forall|q: int| at < q < d ==> (#[trigger] email@[q]) != 46,
                dot ==> at < d - 1 < len && email@[d - 1] == 46,
            decreases len - d + (if dot { 0int } else { 1int }),
        {
            if email[d] == 46 {
                dot = true;
            }
            d = d + 1;
        }
        if !dot {
            proof {
                assert forall|p: int| !email_split_at(email@, p) by {
                    if email_split_at(email@, p) {
                        if p != at as int {
                            assert(email@[at as int] != 64);
                        } else {
                            let w = choose|w: int| p < w < email@.len() && (#[trigger] email@[w]) == 46;
                            assert(email@[w] != 46);
                        }
                    }
                }
            }
            return Err(Error::EmailIsInvalid);
        }
        proof {
            assert(email_split_at(email@, at as int));
        }
        let mut k: usize = 0;
        while k < len
            invariant
                0 <= k <= len,
                len == email@.len(),
                forall|q: int| 0 <= q < k ==> !(65 <= (#[trigger] email@[q]) <= 90),
            decreases len - k,
        {
            if 65 <= email[k] && email[k] <= 90 {
                proof {
                    assert(lower_bytes(email@)[k as int] != email@[k as int]);
                }
                return Err(Error::EmailIsInvalid);
            }
            k = k + 1;
        }
        proof {
            assert(email@ =~= lower_bytes(email@));
        }
        if reject_disposable {
            let mut domain: Vec<u8> = Vec::new();
            let mut t: usize = at + 1;
            while t < len
                invariant
                    at + 1 <= t <= len,
                    len == email@.len(),
                    domain@ =~= email@.subrange(at + 1, t as int),
                decreases len - t,
            {
                domain.push(email[t]);
                t = t + 1;
            }
            let nb = self.config.mail.domains_blocklist.len();
            let mut m: usize = 0;
            while m < nb
                invariant
                    0 <= m <= nb,
                    nb == self.config.mail.domains_blocklist@.len(),
                    domain@ == email@.subrange(at + 1, len as int),
                    forall|q: int|
                        0 <= q < m ==> encode_utf8(
                            (#[trigger] self.config.mail.domains_blocklist@[q])@,
                        ) != domain@,
                decreases nb - m,
            {
                if bytes_eq(
                    self.config.mail.domains_blocklist[m].as_str().as_bytes(),
                    domain.as_slice(),
                ) {
                    proof {
                        assert(email_split_at(email@, at as int));
                        assert(email_domain_blocked(*self, email@));
                    }
                    return Err(Error::EmailIsInvalid);
                }
                m = m + 1;
            }
            proof {
                assert forall|p: int|
                    email_split_at(email@, p) implies !domain_blocked(
                    *self,
                    email@.subrange(p + 1, email@.len() as int),
                ) by {
                    if p != at as int {
                        assert(email@[at as int] != 64);
                    }
                }
            }
        }
        Ok(())
    }

    /// Rules an email candidate: non-empty, `local@domain` shape with a dot
    /// in the domain and printable ASCII only, already lowercase, and (when
    /// asked) not of a blocklisted domain.
    pub fn validate_email(&self, email: &str, reject_disposable: bool) -> (r: Result<(), Error>)
        ensures
            r is Ok <==> email_ok(*self, email.spec_bytes(), reject_disposable),
            r is Err ==> r matches Err(Error::EmailIsInvalid),
    {
        self.validate_email_bytes(email.as_bytes(), reject_disposable)
    }

    /// Rules a user display name: byte length within bounds, legal
    /// characters, no doubled punctuation.
    pub fn validate_user_name(&self, name: &str) -> (r: Result<(), Error>)
        ensures
            r is Ok <==> name_error(
                name@,
                name.spec_bytes().len(),
                consts::USER_NAME_MIN_LENGTH as nat,
                consts::USER_NAME_MAX_LENGTH as nat,
                Error::UserNameIsTooLong,
                Error::UserNameIsTooShort,
                Error::InvalidUserName,
            ) is None,
            r matches Err(e) ==> Some(e) == name_error(
                name@,
                name.spec_bytes().len(),
                consts::USER_NAME_MIN_LENGTH as nat,
                consts::USER_NAME_MAX_LENGTH as nat,
                Error::UserNameIsTooLong,
                Error::UserNameIsTooShort,
                Error::InvalidUserName,
            ),
    {
        validate_name(
            name,
            consts::USER_NAME_MIN_LENGTH,
            consts::USER_NAME_MAX_LENGTH,
            Error::UserNameIsTooLong,
            Error::UserNameIsTooShort,
            Error::InvalidUserName,
        )
    }

    /// Rules a user description: byte length only.
    pub fn validate_user_description(&self, description: &str) -> (r: Result<(), Error>)
        ensures
            r is Ok <==> description.spec_bytes().len() <= consts::USER_DESCRIPTION_MAX_LENGTH,
            r is Err ==> r matches Err(Error::UserDescriptionIsTooLong),
    {
        if description.as_bytes().len() > consts::USER_DESCRIPTION_MAX_LENGTH {
            return Err(Error::UserDescriptionIsTooLong);
        }
        Ok(())
    }

    /// Rules a group display name: same shape rules as a user display name.
    pub fn validate_group_name(&self, name: &str) -> (r: Result<(), Error>)
        ensures
            r is Ok <==> name_error(
                name@,
                name.spec_bytes().len(),
                consts::GROUP_NAME_MIN_LENGTH as nat,
                consts::GROUP_NAME_MAX_LENGTH as nat,
                Error::GroupNameIsTooLong,
                Error::GroupNameIsTooShort,
                Error::InvalidGroupName,
            ) is None,
            r matches Err(e) ==> Some(e) == name_error(
                name@,
                name.spec_bytes().len(),
                consts::GROUP_NAME_MIN_LENGTH as nat,
                consts::GROUP_NAME_MAX_LENGTH as nat,
                Error::GroupNameIsTooLong,
                Error::GroupNameIsTooShort,
                Error::InvalidGroupName,
            ),
    {
        validate_name(
            name,
            consts::GROUP_NAME_MIN_LENGTH,
            consts::GROUP_NAME_MAX_LENGTH,
            Error::GroupNameIsTooLong,
            Error::GroupNameIsTooShort,
            Error::InvalidGroupName,
        )
    }

    /// Rules a group description: byte length only.
    pub fn validate_group_description(&self, description: &str) -> (r: Result<(), Error>)
        ensures
            r is Ok <==> description.spec_bytes().len() <= consts::GROUP_DESCRIPTION_MAX_LENGTH,
            r is Err ==> r matches Err(Error::GroupDescriptionIsTooLong),
    {
        if description.as_bytes().len() > consts::GROUP_DESCRIPTION_MAX_LENGTH {
            return Err(Error::GroupDescriptionIsTooLong);
        }
        Ok(())
    }
}

/// Shared body of the display-name validators.
#[verifier::loop_isolation(false)]
fn validate_name(
    name: &str,
    min: usize,
    max: usize,
    too_long: Error,
    too_short: Error,
    invalid: Error,
) -> (r: Result<(), Error>)
    ensures
        r is Ok <==> name_error(
            name@,
            name.spec_bytes().len(),
            min as nat,
            max as nat,
            too_long,
            too_short,
            invalid,
        ) is None,
        r matches Err(e) ==> Some(e) == name_error(
            name@,
            name.spec_bytes().len(),
            min as nat,
            max as nat,
            too_long,
            too_short,
            invalid,
        ),
{
    let byte_len = name.as_bytes().len();
    if byte_len > max {
        return Err(too_long);
    }
    if byte_len < min {
        return Err(too_short);
    }
    let n = name.unicode_len();
    let mut i: usize = 0;
    while i < n
        invariant
            0 <= i <= n,
            n == name@.len(),
            forall|t: int| 0 <= t < i ==> name_char_ok(#[trigger] name@[t]),
        decreases n - i,
    {
        let c = name.get_char(i);
        if !(is_alphabetic_char(c) || is_numeric_char(c) || c == '-' || c == '_' || c == '.' || c
            == ' ' || c == '\'') {
            return Err(invalid);
        }
        i = i + 1;
    }
    if n > 0 {
        let mut j: usize = 0;
        while j < n - 1
            invariant
                0 <= j <= n - 1,
                n == name@.len(),
                forall|t: int|
                    0 <= t < j ==> !((#[trigger] name@[t]) == name@[t + 1] && (name@[t] == '-'
                        || name@[t] == '_' || name@[t] == '.' || name@[t] == '\'')),
            decreases n - j,
        {
            let a = name.get_char(j);
            let b = name.get_char(j + 1);
            if a == b && (a == '-' || a == '_' || a == '.' || a == '\'') {
                return Err(invalid);
            }
            j = j + 1;
        }
    }
    Ok(())
}

} // verus!
