//! Password policy, hashing and verification.
//!
//! Hashing is Argon2id as the `argon2` crate computes it; the strength score is
//! the one the `zxcvbn` crate estimates. Everything around those two calls (the
//! order of the policy tests, which failure is reported, what is handed to the
//! hasher) is decided here.

use vstd::prelude::*;
use argon2::PasswordHasher;
use argon2::PasswordVerifier;
use rand::Rng;
use crate::chars::{contains_class, has_class, in_class, CharClass};
use crate::text::{
    chars_of, digits_within, lowercase_of, read_digits, str_equals, string_of, to_lowercase,
};

verus! {

/// The error type of the `argon2` crate's password-hash interface.
#[verifier::external_type_specification]
#[verifier::external_body]
pub struct ExPasswordHashError(argon2::password_hash::Error);

/// The error type of the `zxcvbn` crate.
#[verifier::external_type_specification]
#[verifier::external_body]
pub struct ExZxcvbnError(zxcvbn::ZxcvbnError);

/// What verifying `password` against the stored string `hash` gives with Argon2:
/// `Some(true)` when the recomputed digest equals the stored one, `Some(false)`
/// when it differs, `None` when `hash` cannot be used as an Argon2 hash string.
pub uninterp spec fn argon2_outcome(password: Seq<char>, hash: Seq<char>) -> Option<bool>;

/// The hash string that Argon2id, version 0x13, makes of a password under a
/// salt and cost parameters; `None` where the hasher reports an error.
pub uninterp spec fn argon2id_string(
    password: Seq<char>,
    salt: Seq<char>,
    memory_cost: u32,
    time_cost: u32,
    parallelism: u32,
) -> Option<Seq<char>>;

/// What `PasswordHash::new` reads out of a hash string, as far as it is
/// looked at here; `None` for a string that it does not take for a hash string.
pub uninterp spec fn hash_parts(hash: Seq<char>) -> Option<HashPartsView>;

/// The parts of a hash string that are looked at here.
#[derive(Debug)]
pub struct HashParts {
    /// The parameters, as pairs of name and value, in the order in which they
    /// stand.
    pub parameters: Vec<(String, String)>,
    /// The salt, in the text form in which it stands.
    pub salt: Option<String>,
}

/// `HashParts` over character sequences.
pub struct HashPartsView {
    pub parameters: Seq<(Seq<char>, Seq<char>)>,
    pub salt: Option<Seq<char>>,
}

impl View for HashParts {
    type V = HashPartsView;

    open spec fn view(&self) -> HashPartsView {
        HashPartsView {
            parameters: self.parameters@.map_values(|pair: (String, String)| (pair.0@, pair.1@)),
            salt: match self.salt {
                Some(s) => Some(s@),
                None => None,
            },
        }
    }
}

/// How many characters of a password the strength estimator is asked about.
pub const ESTIMATED_CHARACTERS: usize = 12;

/// How many characters the value of a parallelism parameter may have in a
/// hash that is handed to the verifier.
pub const PARALLELISM_DIGITS: usize = 8;

/// Cost parameters and strength rules for passwords.
#[derive(Clone, Copy, Debug, PartialEq, Eq, Structural)]
pub struct PasswordConfig {
    /// Argon2 memory cost, in KiB.
    pub memory_cost: u32,
    /// Argon2 iteration count.
    pub time_cost: u32,
    /// Argon2 degree of parallelism.
    pub parallelism: u32,
    /// Fewest characters a password may have.
    pub min_length: usize,
    /// Most characters a password may have.
    pub max_length: usize,
    pub require_uppercase: bool,
    pub require_lowercase: bool,
    pub require_numbers: bool,
    pub require_special: bool,
    /// Lowest acceptable strength score, on the estimator's scale from 0 to 4.
    pub min_strength_score: u8,
    /// How many earlier passwords may not be reused. Reserved: nothing reads it.
    pub history_length: usize,
}

/// The rule of the policy that a password breaks.
#[derive(Clone, Copy, Debug, PartialEq, Eq, Structural)]
pub enum PasswordPolicyError {
    TooShort,
    TooLong,
    MissingUppercase,
    MissingLowercase,
    MissingNumber,
    MissingSpecial,
    /// The estimator scored the password below the policy's minimum.
    TooWeak { score: u8 },
    /// The policy asks for a score and the estimator gave none.
    StrengthUnknown,
}

/// Why hashing or verifying failed.
#[derive(Clone, Copy, Debug, PartialEq, Eq, Structural)]
pub enum PasswordError {
    /// The password does not meet the policy, so it was not hashed.
    Policy(PasswordPolicyError),
    /// The configured cost parameters are outside what Argon2 accepts.
    InvalidCostParameters,
    /// The hasher reported a failure.
    HashingFailed,
    /// The stored string is not a usable Argon2 hash.
    MalformedHash,
}

/// Hashes and verifies passwords under one policy.
pub struct PasswordSecurity {
    config: PasswordConfig,
}

/// The strict profile.
pub open spec fn production_profile() -> PasswordConfig {
    PasswordConfig {
        memory_cost: 65536,
        time_cost: 3,
        parallelism: 4,
        min_length: 12,
        max_length: 128,
        require_uppercase: true,
        require_lowercase: true,
        require_numbers: true,
        require_special: true,
        min_strength_score: 3,
        history_length: 12,
    }
}

/// The relaxed profile.
pub open spec fn development_profile() -> PasswordConfig {
    PasswordConfig {
        memory_cost: 4096,
        time_cost: 2,
        parallelism: 2,
        min_length: 8,
        max_length: 128,
        require_uppercase: true,
        require_lowercase: true,
        require_numbers: true,
        require_special: true,
        min_strength_score: 1,
        history_length: 0,
    }
}

/// The profile that an environment name selects: the strict one for
/// `production` in any letter case, the relaxed one for everything else.
pub open spec fn profile_for(environment: Seq<char>) -> PasswordConfig {
    if lowercase_of(environment) == "production"@ {
        production_profile()
    } else {
        development_profile()
    }
}

/// Cost parameters that Argon2 accepts: at least 8 KiB of memory and at least 8
/// KiB per lane, at least one pass, between 1 and 2^24 - 1 lanes.
pub open spec fn cost_parameters_valid(memory_cost: u32, time_cost: u32, parallelism: u32) -> bool {
    &&& memory_cost >= 8
    &&& 1 <= parallelism <= 0xFF_FFFF
    &&& memory_cost >= 8 * parallelism
    &&& time_cost >= 1
}

/// The tests on a password that need no estimator, in the order in which they
/// are made: length, then uppercase, lowercase, number, special character.
pub open spec fn structure_verdict(config: PasswordConfig, password: Seq<char>) -> Result<
    (),
    PasswordPolicyError,
> {
    if password.len() < config.min_length {
        Err(PasswordPolicyError::TooShort)
    } else if password.len() > config.max_length {
        Err(PasswordPolicyError::TooLong)
    } else if config.require_uppercase && !has_class(password, CharClass::Uppercase) {
        Err(PasswordPolicyError::MissingUppercase)
    } else if config.require_lowercase && !has_class(password, CharClass::Lowercase) {
        Err(PasswordPolicyError::MissingLowercase)
    } else if config.require_numbers && !has_class(password, CharClass::Number) {
        Err(PasswordPolicyError::MissingNumber)
    } else if config.require_special && !has_class(password, CharClass::Special) {
        Err(PasswordPolicyError::MissingSpecial)
    } else {
        Ok(())
    }
}

/// The test on the estimator's score. A policy with minimum 0 asks for no score.
pub open spec fn strength_verdict(config: PasswordConfig, score: Option<u8>) -> Result<
    (),
    PasswordPolicyError,
> {
    if config.min_strength_score == 0 {
        Ok(())
    } else {
        match score {
            None => Err(PasswordPolicyError::StrengthUnknown),
            Some(s) => if s < config.min_strength_score {
                Err(PasswordPolicyError::TooWeak { score: s })
            } else {
                Ok(())
            },
        }
    }
}

/// The whole policy: structure first, strength last.
pub open spec fn policy_verdict(
    config: PasswordConfig,
    password: Seq<char>,
    score: Option<u8>,
) -> Result<(), PasswordPolicyError> {
    match structure_verdict(config, password) {
        Err(e) => Err(e),
        Ok(_) => strength_verdict(config, score),
    }
}

/// The cost parameters of a policy.
pub open spec fn policy_costs(config: PasswordConfig) -> (u32, u32, u32) {
    (config.memory_cost, config.time_cost, config.parallelism)
}

/// What hashing returns, given the estimator's score and the salt.
///
/// A password that fails the policy is refused for the rule it breaks and does
/// not reach the hasher. Cost parameters that Argon2 does not accept are
/// refused next. Otherwise the result is the hasher's: its string under the
/// salt and the policy's cost parameters, or `HashingFailed`.
pub open spec fn hashing(
    config: PasswordConfig,
    password: Seq<char>,
    score: Option<u8>,
    salt: Seq<char>,
) -> Result<Seq<char>, PasswordError> {
    match policy_verdict(config, password, score) {
        Err(rule) => Err(PasswordError::Policy(rule)),
        Ok(_) => if !cost_parameters_valid(
            config.memory_cost,
            config.time_cost,
            config.parallelism,
        ) {
            Err(PasswordError::InvalidCostParameters)
        } else {
            match argon2id_string(
                password,
                salt,
                config.memory_cost,
                config.time_cost,
                config.parallelism,
            ) {
                Some(hash) => Ok(hash),
                None => Err(PasswordError::HashingFailed),
            }
        },
    }
}

/// The view of a result that holds a hash string.
pub open spec fn hash_view(hashed: Result<String, PasswordError>) -> Result<Seq<char>, PasswordError> {
    match hashed {
        Ok(hash) => Ok(hash@),
        Err(e) => Err(e),
    }
}

/// The parameters that a hash string carries, as pairs of name and value in
/// the order in which they stand; `None` for a string that is no hash string.
pub open spec fn hash_parameters(hash: Seq<char>) -> Option<Seq<(Seq<char>, Seq<char>)>> {
    match hash_parts(hash) {
        Some(parts) => Some(parts.parameters),
        None => None,
    }
}

/// The salt that a hash string embeds; `None` for a string that is no hash
/// string or has no salt.
pub open spec fn hash_salt(hash: Seq<char>) -> Option<Seq<char>> {
    match hash_parts(hash) {
        Some(parts) => parts.salt,
        None => None,
    }
}

/// The number that the value of a cost parameter denotes: decimal digits
/// without a leading zero, of a value that fits in 32 bits.
pub open spec fn cost_value(text: Seq<char>) -> Option<u32> {
    if text.len() > 1 && text[0] == '0' {
        None
    } else {
        match digits_within(text, 0xFFFF_FFFF) {
            Some(value) => Some(value as u32),
            None => None,
        }
    }
}

/// The cost that stands under a name among parameters: the value of the first
/// parameter so named, where it denotes a number.
pub open spec fn named_cost(parameters: Seq<(Seq<char>, Seq<char>)>, name: Seq<char>) -> Option<u32>
    decreases parameters.len(),
{
    if parameters.len() == 0 {
        None
    } else if parameters[0].0 == name {
        cost_value(parameters[0].1)
    } else {
        named_cost(parameters.drop_first(), name)
    }
}

/// The costs among parameters: memory under `m`, time under `t`, parallelism
/// under `p`, where all three are there.
pub open spec fn costs_among(parameters: Seq<(Seq<char>, Seq<char>)>) -> Option<(u32, u32, u32)> {
    if named_cost(parameters, "m"@) is Some && named_cost(parameters, "t"@) is Some && named_cost(
        parameters,
        "p"@,
    ) is Some {
        Some(
            (
                named_cost(parameters, "m"@)->Some_0,
                named_cost(parameters, "t"@)->Some_0,
                named_cost(parameters, "p"@)->Some_0,
            ),
        )
    } else {
        None
    }
}

/// The memory cost, time cost and parallelism that a hash string embeds;
/// `None` for a string that is no hash string or does not name all three.
pub open spec fn hash_costs(hash: Seq<char>) -> Option<(u32, u32, u32)> {
    match hash_parameters(hash) {
        Some(parameters) => costs_among(parameters),
        None => None,
    }
}

/// The part of a password that the strength estimator is asked about: its
/// first `ESTIMATED_CHARACTERS` characters.
pub open spec fn estimated_part(password: Seq<char>) -> Seq<char> {
    if password.len() <= ESTIMATED_CHARACTERS {
        password
    } else {
        password.subrange(0, ESTIMATED_CHARACTERS as int)
    }
}

/// Whether every parallelism parameter among the given ones has a value of at
/// most `PARALLELISM_DIGITS` characters, and so, read as a number, stays below
/// 100 000 000.
pub open spec fn parallelism_bounded(parameters: Seq<(Seq<char>, Seq<char>)>) -> bool {
    forall|i: int|
        0 <= i < parameters.len() && (#[trigger] parameters[i]).0 == "p"@ ==> parameters[i].1.len()
            <= PARALLELISM_DIGITS
}

/// Whether a stored string is handed to the verifier: it must read as a hash
/// string, and its parallelism must be bounded. No hash made with cost
/// parameters that Argon2 accepts fails this.
pub open spec fn verifiable(hash: Seq<char>) -> bool {
    hash_parameters(hash) matches Some(parameters) && parallelism_bounded(parameters)
}

/// What verification returns: `MalformedHash` for a string that is not handed
/// to the verifier or that the verifier cannot use, else whether the digests
/// match.
pub open spec fn verification(password: Seq<char>, hash: Seq<char>) -> Result<bool, PasswordError> {
    if !verifiable(hash) {
        Err(PasswordError::MalformedHash)
    } else {
        match argon2_outcome(password, hash) {
            Some(matches) => Ok(matches),
            None => Err(PasswordError::MalformedHash),
        }
    }
}

/// The view of what was read out of a hash string.
pub open spec fn parts_view(parts: Option<HashParts>) -> Option<HashPartsView> {
    match parts {
        Some(p) => Some(p@),
        None => None,
    }
}

/// Two hash strings that embed different salts are different strings. Every
/// hash that `hash_password_with` returns embeds the salt it was given, so
/// hashing one password under two different salts gives two different hashes.
pub proof fn hashes_under_different_salts_differ(
    first: Seq<char>,
    second: Seq<char>,
    first_salt: Seq<char>,
    second_salt: Seq<char>,
)
    requires
        hash_salt(first) == Some(first_salt),
        hash_salt(second) == Some(second_salt),
        first_salt != second_salt,
    ensures
        first != second,
{
}

/// Invalid cost parameters are never reported as a failure of the hasher, and
/// a password that fails the policy is never hashed, whatever the score and
/// the salt.
pub proof fn hasher_is_reached_last(
    config: PasswordConfig,
    password: Seq<char>,
    score: Option<u8>,
    salt: Seq<char>,
)
    ensures
        policy_verdict(config, password, score) matches Err(rule) ==> hashing(
            config,
            password,
            score,
            salt,
        ) == Err::<Seq<char>, PasswordError>(PasswordError::Policy(rule)),
        policy_verdict(config, password, score) is Ok && !cost_parameters_valid(
            config.memory_cost,
            config.time_cost,
            config.parallelism,
        ) ==> hashing(config, password, score, salt) == Err::<Seq<char>, PasswordError>(
            PasswordError::InvalidCostParameters,
        ),
        hashing(config, password, score, salt) is Ok ==> argon2id_string(
            password,
            salt,
            config.memory_cost,
            config.time_cost,
            config.parallelism,
        ) == Some(hashing(config, password, score, salt)->Ok_0),
{
}

/// Whatever the strict profile accepts, the relaxed profile accepts too.
pub proof fn strict_profile_implies_relaxed(password: Seq<char>, score: Option<u8>)
    requires
        policy_verdict(production_profile(), password, score) is Ok,
    ensures
        policy_verdict(development_profile(), password, score) is Ok,
{
}

/// An empty password fails every policy that asks for at least one character,
/// on its length, before anything else is looked at.
pub proof fn empty_password_is_too_short(config: PasswordConfig, score: Option<u8>)
    requires
        config.min_length > 0,
    ensures
        policy_verdict(config, Seq::empty(), score) == Err::<(), PasswordPolicyError>(
            PasswordPolicyError::TooShort,
        ),
{
}

/// `zxcvbn::zxcvbn` with no user inputs, reduced to its score. The estimate
/// depends on the current year, so nothing is claimed beyond the documented
/// range of the score, 0 to 4.
///
/// The crate computes in machine integers without guarding every step: a
/// factorial of the number of patterns found (in `usize`), powers of a
/// keyboard's average degree to the number of turns of a walk, and products
/// over the ways of writing a dictionary word. On a text of twelve characters
/// or fewer none of these leaves its range, on 32-bit machines too; on longer
/// texts some can. The crate also times itself on the wall clock and stops
/// the program if that clock steps back while it works.
#[verifier::external_body]
fn estimate_strength(password: &str) -> (estimate: Result<u8, zxcvbn::ZxcvbnError>)
    requires
        password@.len() <= ESTIMATED_CHARACTERS,
    ensures
        estimate matches Ok(score) ==> score <= 4,
{
    zxcvbn::zxcvbn(password, &[]).map(|entropy| entropy.score())
}

/// `SaltString::generate` over the operating system's generator: a fresh
/// random salt, in the text form that hash strings carry. Nothing is claimed
/// of it. The program stops where the operating system gives no randomness.
#[verifier::external_body]
pub(crate) fn fresh_salt() -> (salt: String) {
    argon2::password_hash::SaltString::generate(&mut argon2::password_hash::rand_core::OsRng)
        .as_str()
        .to_owned()
}

/// `Argon2::hash_password` (Argon2id, version 0x13) under the given salt
/// (`SaltString::from_b64`) and cost parameters (`Params::new`). The string
/// that comes back is a function of what goes in. It embeds the salt and the
/// cost parameters it was made with, and verifying the same password against
/// it succeeds, as the crate documents for a hash and its password.
#[verifier::external_body]
pub(crate) fn argon2id_hash(
    password: &str,
    salt: &str,
    memory_cost: u32,
    time_cost: u32,
    parallelism: u32,
) -> (hashed: Result<String, argon2::password_hash::Error>)
    requires
        cost_parameters_valid(memory_cost, time_cost, parallelism),
    ensures
        hashed matches Ok(hash) ==> argon2id_string(
            password@,
            salt@,
            memory_cost,
            time_cost,
            parallelism,
        ) == Some(hash@),
        hashed is Err ==> argon2id_string(password@, salt@, memory_cost, time_cost, parallelism)
            is None,
        hashed matches Ok(hash) ==> argon2_outcome(password@, hash@) == Some(true),
        hashed matches Ok(hash) ==> hash_costs(hash@) == Some((memory_cost, time_cost, parallelism)),
        hashed matches Ok(hash) ==> hash_salt(hash@) == Some(salt@),
        hashed matches Ok(hash) ==> verifiable(hash@),
{
    let params = argon2::Params::new(memory_cost, time_cost, parallelism, None)?;
    let hasher = argon2::Argon2::new(argon2::Algorithm::Argon2id, argon2::Version::V0x13, params);
    let salt = argon2::password_hash::SaltString::from_b64(salt)?;
    Ok(hasher.hash_password(password.as_bytes(), &salt)?.to_string())
}

/// `PasswordHash::new`, reduced to the parameters and the salt it finds: every
/// pair of name and value in the parameter field, in order, and the salt
/// field, all as text.
#[verifier::external_body]
fn read_hash_parts(hash: &str) -> (parts: Option<HashParts>)
    ensures
        parts_view(parts) == hash_parts(hash@),
{
    let parsed = argon2::PasswordHash::new(hash).ok()?;
    let parameters = parsed
        .params
        .iter()
        .map(|(name, value)| (name.as_str().to_owned(), value.as_str().to_owned()))
        .collect();
    Some(HashParts { parameters, salt: parsed.salt.map(|salt| salt.as_str().to_owned()) })
}

/// `PasswordHash::new` followed by `Argon2::verify_password`, which recomputes
/// the digest under the parameters embedded in `hash` and compares in constant
/// time. A digest that differs is `Ok(false)`; any other failure is the crate's
/// error. Memory is taken as the embedded parameters ask.
///
/// The crate multiplies the parallelism it reads by eight in 32 bits before it
/// tests it against its maximum, so a hash is handed over only where every
/// parallelism parameter in it is short enough to stay far below that range.
#[verifier::external_body]
fn argon2_verify(password: &str, hash: &str) -> (checked: Result<
    bool,
    argon2::password_hash::Error,
>)
    requires
        verifiable(hash@),
    ensures
        checked matches Ok(matches) ==> argon2_outcome(password@, hash@) == Some(matches),
        checked is Err ==> argon2_outcome(password@, hash@) is None,
{
    let parsed = argon2::PasswordHash::new(hash)?;
    match argon2::Argon2::default().verify_password(password.as_bytes(), &parsed) {
        Ok(()) => Ok(true),
        Err(argon2::password_hash::Error::Password) => Ok(false),
        Err(other) => Err(other),
    }
}

/// `Rng::gen_range` over `0..bound` on the thread's generator.
#[verifier::external_body]
fn random_below(bound: usize) -> (index: usize)
    requires
        bound > 0,
    ensures
        index < bound,
{
    rand::thread_rng().gen_range(0..bound)
}

/// Whether a stored string is handed to the verifier.
pub fn is_verifiable(hash: &str) -> (yes: bool)
    ensures
        yes == verifiable(hash@),
{
    let parameters = match read_hash_parts(hash) {
        Some(parts) => parts.parameters,
        None => {
            return false;
        },
    };
    let ghost pairs = parameters@.map_values(|pair: (String, String)| (pair.0@, pair.1@));
    let mut i: usize = 0;
    while i < parameters.len()
        invariant
            i <= parameters.len(),
            pairs == parameters@.map_values(|pair: (String, String)| (pair.0@, pair.1@)),
            hash_parameters(hash@) == Some(pairs),
            forall|j: int|
                0 <= j < i && (#[trigger] pairs[j]).0 == "p"@ ==> pairs[j].1.len()
                    <= PARALLELISM_DIGITS,
        decreases parameters.len() - i,
    {
        assert(pairs[i as int] == (parameters@[i as int].0@, parameters@[i as int].1@));
        if str_equals(parameters[i].0.as_str(), "p") && parameters[i].1.as_str().unicode_len()
            > PARALLELISM_DIGITS {
            return false;
        }
        i += 1;
    }
    true
}

fn read_cost(text: &str) -> (cost: Option<u32>)
    ensures
        cost == cost_value(text@),
{
    let chars = chars_of(text);
    if chars.len() > 1 && chars[0] == '0' {
        return None;
    }
    match read_digits(&chars, 0xFFFF_FFFF) {
        Some(value) => Some(value as u32),
        None => None,
    }
}

fn cost_named(parameters: &Vec<(String, String)>, name: &str) -> (cost: Option<u32>)
    ensures
        cost == named_cost(
            parameters@.map_values(|pair: (String, String)| (pair.0@, pair.1@)),
            name@,
        ),
{
    let ghost pairs = parameters@.map_values(|pair: (String, String)| (pair.0@, pair.1@));
    let mut i: usize = 0;
    assert(pairs.subrange(0, pairs.len() as int) == pairs);
    while i < parameters.len()
        invariant
            i <= parameters.len(),
            pairs == parameters@.map_values(|pair: (String, String)| (pair.0@, pair.1@)),
            named_cost(pairs, name@) == named_cost(pairs.subrange(i as int, pairs.len() as int), name@),
        decreases parameters.len() - i,
    {
        let ghost rest = pairs.subrange(i as int, pairs.len() as int);
        assert(rest[0] == (parameters@[i as int].0@, parameters@[i as int].1@));
        assert(rest.drop_first() == pairs.subrange(i + 1, pairs.len() as int));
        if str_equals(parameters[i].0.as_str(), name) {
            return read_cost(parameters[i].1.as_str());
        }
        i += 1;
    }
    None
}

/// The memory cost, time cost and parallelism that a hash string embeds.
pub fn hash_costs_of(hash: &str) -> (costs: Option<(u32, u32, u32)>)
    ensures
        costs == hash_costs(hash@),
{
    let parts = match read_hash_parts(hash) {
        Some(parts) => parts,
        None => {
            return None;
        },
    };
    let memory = cost_named(&parts.parameters, "m");
    let time = cost_named(&parts.parameters, "t");
    let parallelism = cost_named(&parts.parameters, "p");
    match (memory, time, parallelism) {
        (Some(m), Some(t), Some(p)) => Some((m, t, p)),
        _ => None,
    }
}

/// The salt that a hash string embeds.
pub fn hash_salt_of(hash: &str) -> (salt: Option<String>)
    ensures
        match salt {
            Some(s) => hash_salt(hash@) == Some(s@),
            None => hash_salt(hash@) is None,
        },
{
    match read_hash_parts(hash) {
        Some(parts) => parts.salt,
        None => None,
    }
}

/// The part of a password that the strength estimator is asked about.
pub fn estimated_text(password: &str) -> (part: String)
    ensures
        part@ == estimated_part(password@),
{
    let chars = chars_of(password);
    if chars.len() <= ESTIMATED_CHARACTERS {
        return string_of(&chars);
    }
    let mut part: Vec<char> = Vec::new();
    let mut i: usize = 0;
    while i < ESTIMATED_CHARACTERS
        invariant
            i <= ESTIMATED_CHARACTERS < chars.len(),
            part@ == chars@.subrange(0, i as int),
        decreases ESTIMATED_CHARACTERS - i,
    {
        part.push(chars[i]);
        i += 1;
    }
    string_of(&part)
}

/// The estimator's score for the part of a password that it is asked about,
/// or nothing where it gives none.
fn estimate(password: &str) -> (score: Option<u8>)
    ensures
        score matches Some(s) ==> s <= 4,
{
    let part = estimated_text(password);
    match estimate_strength(part.as_str()) {
        Ok(s) => Some(s),
        Err(_) => None,
    }
}

impl Default for PasswordConfig {
    fn default() -> (config: Self)
        ensures
            config == production_profile(),
    {
        PasswordConfig::production_config()
    }
}

impl PasswordConfig {
    /// The strict profile: 12 to 128 characters, every class, score 3 or more,
    /// 64 MiB of memory, 3 passes, 4 lanes.
    pub fn production_config() -> (config: Self)
        ensures
            config == production_profile(),
    {
        PasswordConfig {
            memory_cost: 65536,
            time_cost: 3,
            parallelism: 4,
            min_length: 12,
            max_length: 128,
            require_uppercase: true,
            require_lowercase: true,
            require_numbers: true,
            require_special: true,
            min_strength_score: 3,
            history_length: 12,
        }
    }

    /// The relaxed profile: 8 to 128 characters, every class, score 1 or more,
    /// 4 MiB of memory, 2 passes, 2 lanes.
    pub fn development_config() -> (config: Self)
        ensures
            config == development_profile(),
    {
        PasswordConfig {
            memory_cost: 4096,
            time_cost: 2,
            parallelism: 2,
            min_length: 8,
            max_length: 128,
            require_uppercase: true,
            require_lowercase: true,
            require_numbers: true,
            require_special: true,
            min_strength_score: 1,
            history_length: 0,
        }
    }

    /// The profile for the named environment.
    pub fn from_environment(environment: &str) -> (config: Self)
        ensures
            config == profile_for(environment@),
    {
        let lowered = to_lowercase(environment);
        if str_equals(lowered.as_str(), "production") {
            PasswordConfig::production_config()
        } else {
            PasswordConfig::development_config()
        }
    }

    /// Whether Argon2 accepts the cost parameters.
    pub fn has_valid_cost_parameters(&self) -> (valid: bool)
        ensures
            valid == cost_parameters_valid(self.memory_cost, self.time_cost, self.parallelism),
    {
        self.memory_cost >= 8 && self.parallelism >= 1 && self.parallelism <= 0xFF_FFFF
            && self.memory_cost / 8 >= self.parallelism && self.time_cost >= 1
    }
}

/// A character of the alphabet that generated passwords are drawn from: the
/// ASCII letters and digits and the generator's punctuation.
pub open spec fn in_generator_alphabet(c: char) -> bool {
    ||| ('A' <= c && c <= 'Z')
    ||| ('a' <= c && c <= 'z')
    ||| ('0' <= c && c <= '9')
    ||| is_generator_special(c)
}

/// The punctuation that generated passwords use.
pub open spec fn is_generator_special(c: char) -> bool {
    ||| c == '!' || c == '@' || c == '#' || c == '$' || c == '%' || c == '^' || c == '&'
    ||| c == '*' || c == '(' || c == ')' || c == '_' || c == '+' || c == '-' || c == '='
    ||| c == '[' || c == ']' || c == '{' || c == '}' || c == '|' || c == ';' || c == ':'
    ||| c == ',' || c == '.' || c == '<' || c == '>' || c == '?'
}

/// How many classes the policy requires, which is how many characters a
/// generated password is seeded with.
pub open spec fn required_classes(config: PasswordConfig) -> nat {
    let upper: nat = if config.require_uppercase { 1 } else { 0 };
    let lower: nat = if config.require_lowercase { 1 } else { 0 };
    let number: nat = if config.require_numbers { 1 } else { 0 };
    let special: nat = if config.require_special { 1 } else { 0 };
    upper + lower + number + special
}

/// The length asked of the generator: the one given, or the larger of 16 and
/// the policy's minimum.
pub open spec fn requested_length(config: PasswordConfig, length: Option<usize>) -> nat {
    match length {
        Some(n) => n as nat,
        None => if config.min_length > 16 {
            config.min_length as nat
        } else {
            16
        },
    }
}

/// The length of a generated password: the one asked for, but never less than
/// one character per required class.
pub open spec fn generated_length(config: PasswordConfig, length: Option<usize>) -> nat {
    let asked = requested_length(config, length);
    if asked < required_classes(config) {
        required_classes(config)
    } else {
        asked
    }
}

proof fn lemma_alphabets()
    ensures
        "ABCDEFGHIJKLMNOPQRSTUVWXYZ"@.len() == 26,
        forall|i: int|
            0 <= i < 26 ==> 'A' <= (#[trigger] "ABCDEFGHIJKLMNOPQRSTUVWXYZ"@[i]) <= 'Z',
        "abcdefghijklmnopqrstuvwxyz"@.len() == 26,
        forall|i: int|
            0 <= i < 26 ==> 'a' <= (#[trigger] "abcdefghijklmnopqrstuvwxyz"@[i]) <= 'z',
        "0123456789"@.len() == 10,
        forall|i: int| 0 <= i < 10 ==> '0' <= (#[trigger] "0123456789"@[i]) <= '9',
        "!@#$%^&*()_+-=[]{}|;:,.<>?"@.len() == 26,
        forall|i: int|
            0 <= i < 26 ==> is_generator_special(#[trigger] "!@#$%^&*()_+-=[]{}|;:,.<>?"@[i]),
{
    reveal_strlit("ABCDEFGHIJKLMNOPQRSTUVWXYZ");
    reveal_strlit("abcdefghijklmnopqrstuvwxyz");
    reveal_strlit("0123456789");
    reveal_strlit("!@#$%^&*()_+-=[]{}|;:,.<>?");
}

proof fn lemma_full_alphabet()
    ensures
        "ABCDEFGHIJKLMNOPQRSTUVWXYZabcdefghijklmnopqrstuvwxyz0123456789!@#$%^&*()_+-=[]{}|;:,.<>?"@.len()
            == 88,
        forall|i: int|
            0 <= i < 88 ==> in_generator_alphabet(
                #[trigger] "ABCDEFGHIJKLMNOPQRSTUVWXYZabcdefghijklmnopqrstuvwxyz0123456789!@#$%^&*()_+-=[]{}|;:,.<>?"@[i],
            ),
{
    reveal_strlit(
        "ABCDEFGHIJKLMNOPQRSTUVWXYZabcdefghijklmnopqrstuvwxyz0123456789!@#$%^&*()_+-=[]{}|;:,.<>?",
    );
}

/// The indices drawn for one generated password. Each is reduced modulo the
/// size of what it is drawn from; a draw that is missing counts as 0, and
/// one too many is not looked at.
#[derive(Debug)]
pub struct Draws {
    /// One index for each required class, into the alphabet of that class, in
    /// the order uppercase, lowercase, number, special.
    pub seeds: Vec<usize>,
    /// One index for each further character, into the whole alphabet.
    pub fill: Vec<usize>,
    /// One index for each step of the shuffle. The steps go from the last
    /// position down to position 1, and the step at position `i` swaps it with
    /// the position drawn from `0..=i`.
    pub shuffle: Vec<usize>,
}

/// The uppercase letters that seeds are drawn from.
pub open spec fn upper_alphabet() -> Seq<char> {
    "ABCDEFGHIJKLMNOPQRSTUVWXYZ"@
}

/// The lowercase letters that seeds are drawn from.
pub open spec fn lower_alphabet() -> Seq<char> {
    "abcdefghijklmnopqrstuvwxyz"@
}

/// The digits that seeds are drawn from.
pub open spec fn digit_alphabet() -> Seq<char> {
    "0123456789"@
}

/// The punctuation that seeds are drawn from.
pub open spec fn special_alphabet() -> Seq<char> {
    "!@#$%^&*()_+-=[]{}|;:,.<>?"@
}

/// The whole alphabet: the four above, one after the other.
pub open spec fn full_alphabet() -> Seq<char> {
    "ABCDEFGHIJKLMNOPQRSTUVWXYZabcdefghijklmnopqrstuvwxyz0123456789!@#$%^&*()_+-=[]{}|;:,.<>?"@
}

/// The draw at position `k` of a list; 0 where the list has none there.
pub open spec fn drawn(list: Seq<usize>, k: int) -> int {
    if 0 <= k < list.len() {
        list[k] as int
    } else {
        0
    }
}

/// The character of an alphabet that a draw picks.
pub open spec fn picked(alphabet: Seq<char>, draw: int) -> char {
    alphabet[draw % (alphabet.len() as int)]
}

/// The seeds so far, with one more drawn from `alphabet` where its class is
/// required. The draw used is the one at the position that the seed takes.
pub open spec fn seed_step(
    so_far: Seq<char>,
    required: bool,
    alphabet: Seq<char>,
    seeds: Seq<usize>,
) -> Seq<char> {
    if required {
        so_far.push(picked(alphabet, drawn(seeds, so_far.len() as int)))
    } else {
        so_far
    }
}

/// The seeds of a password: one character of each required class, in the
/// order uppercase, lowercase, number, special.
pub open spec fn seeded(config: PasswordConfig, seeds: Seq<usize>) -> Seq<char> {
    let upper = seed_step(Seq::empty(), config.require_uppercase, upper_alphabet(), seeds);
    let lower = seed_step(upper, config.require_lowercase, lower_alphabet(), seeds);
    let number = seed_step(lower, config.require_numbers, digit_alphabet(), seeds);
    seed_step(number, config.require_special, special_alphabet(), seeds)
}

/// A text with `count` more characters, each drawn from the whole alphabet.
pub open spec fn filled(start: Seq<char>, fill: Seq<usize>, count: nat) -> Seq<char>
    decreases count,
{
    if count == 0 {
        start
    } else {
        filled(start, fill, (count - 1) as nat).push(picked(full_alphabet(), drawn(fill, count - 1)))
    }
}

/// A text with the characters at two positions exchanged.
pub open spec fn swapped(s: Seq<char>, i: int, j: int) -> Seq<char> {
    s.update(i, s[j]).update(j, s[i])
}

/// A text after the first `steps` steps of the shuffle: step number `n`
/// exchanges the character at position `len - n` with the one at the position
/// drawn from `0..=len - n`.
pub open spec fn shuffled(s: Seq<char>, shuffle: Seq<usize>, steps: nat) -> Seq<char>
    decreases steps,
{
    if steps == 0 {
        s
    } else {
        let before = shuffled(s, shuffle, (steps - 1) as nat);
        let at = s.len() - steps;
        swapped(before, at, drawn(shuffle, steps - 1) % (at + 1))
    }
}

/// The password that the draws make: the seeds, filled up to the length asked
/// for, and shuffled from the last position down to position 1.
pub open spec fn generated(config: PasswordConfig, length: Option<usize>, draws: Draws) -> Seq<char> {
    let seeds = seeded(config, draws.seeds@);
    let asked = requested_length(config, length);
    let base = if asked > seeds.len() {
        filled(seeds, draws.fill@, (asked - seeds.len()) as nat)
    } else {
        seeds
    };
    if base.len() > 1 {
        shuffled(base, draws.shuffle@, (base.len() - 1) as nat)
    } else {
        base
    }
}

fn draw(list: &Vec<usize>, k: usize) -> (d: usize)
    ensures
        d == drawn(list@, k as int),
{
    if k < list.len() {
        list[k]
    } else {
        0
    }
}

fn pick(alphabet: &str, d: usize) -> (c: char)
    requires
        alphabet@.len() > 0,
    ensures
        c == picked(alphabet@, d as int),
        exists|i: int| 0 <= i < alphabet@.len() && alphabet@[i] == c,
{
    let n = alphabet.unicode_len();
    alphabet.get_char(d % n)
}

fn swap_chars(chars: &mut Vec<char>, i: usize, j: usize)
    requires
        i < old(chars).len(),
        j < old(chars).len(),
    ensures
        final(chars)@ == old(chars)@.update(i as int, old(chars)@[j as int]).update(
            j as int,
            old(chars)@[i as int],
        ),
{
    let a = chars[i];
    let b = chars[j];
    chars.set(i, b);
    chars.set(j, a);
}

impl PasswordSecurity {
    /// The policy that this instance works under.
    pub closed spec fn policy(&self) -> PasswordConfig {
        self.config
    }

    /// An instance for the given policy.
    pub fn new(config: PasswordConfig) -> (security: Self)
        ensures
            security.policy() == config,
    {
        PasswordSecurity { config }
    }

    /// An instance for the profile of the named environment.
    pub fn from_environment(environment: &str) -> (security: Self)
        ensures
            security.policy() == profile_for(environment@),
    {
        PasswordSecurity { config: PasswordConfig::from_environment(environment) }
    }

    /// The policy, for callers that show its rules to users.
    pub fn get_config(&self) -> (config: &PasswordConfig)
        ensures
            *config == self.policy(),
    {
        &self.config
    }

    fn check_structure(&self, chars: &Vec<char>) -> (verdict: Result<(), PasswordPolicyError>)
        ensures
            verdict == structure_verdict(self.config, chars@),
    {
        if chars.len() < self.config.min_length {
            Err(PasswordPolicyError::TooShort)
        } else if chars.len() > self.config.max_length {
            Err(PasswordPolicyError::TooLong)
        } else if self.config.require_uppercase && !contains_class(chars, CharClass::Uppercase) {
            Err(PasswordPolicyError::MissingUppercase)
        } else if self.config.require_lowercase && !contains_class(chars, CharClass::Lowercase) {
            Err(PasswordPolicyError::MissingLowercase)
        } else if self.config.require_numbers && !contains_class(chars, CharClass::Number) {
            Err(PasswordPolicyError::MissingNumber)
        } else if self.config.require_special && !contains_class(chars, CharClass::Special) {
            Err(PasswordPolicyError::MissingSpecial)
        } else {
            Ok(())
        }
    }

    /// Judges a password whose strength score is already known.
    ///
    /// `score` is the estimator's answer for the part of the password that it
    /// is asked about, `None` where it gave none. The first rule broken, in the
    /// order length, uppercase, lowercase, number, special character, strength,
    /// is the one reported.
    pub fn check_password(&self, password: &str, score: Option<u8>) -> (verdict: Result<
        (),
        PasswordPolicyError,
    >)
        ensures
            verdict == policy_verdict(self.policy(), password@, score),
    {
        let chars = chars_of(password);
        match self.check_structure(&chars) {
            Err(e) => Err(e),
            Ok(()) => {
                if self.config.min_strength_score == 0 {
                    Ok(())
                } else {
                    match score {
                        None => Err(PasswordPolicyError::StrengthUnknown),
                        Some(s) => if s < self.config.min_strength_score {
                            Err(PasswordPolicyError::TooWeak { score: s })
                        } else {
                            Ok(())
                        },
                    }
                }
            },
        }
    }

    /// Judges a password against the policy, asking the estimator for its score
    /// where the policy needs one.
    ///
    /// A password that breaks a structural rule is refused for that rule and the
    /// estimator is not consulted. Otherwise the estimator is asked about the
    /// first `ESTIMATED_CHARACTERS` characters of the password, and the verdict
    /// is the policy's for whatever score it gives: a password is judged no
    /// stronger than its beginning.
    pub fn validate_password_strength(&self, password: &str) -> (verdict: Result<
        (),
        PasswordPolicyError,
    >)
        ensures
            structure_verdict(self.policy(), password@) is Err ==> verdict == structure_verdict(
                self.policy(),
                password@,
            ),
            structure_verdict(self.policy(), password@) is Ok ==> {
                ||| verdict == strength_verdict(self.policy(), None)
                ||| exists|score: u8|
                    score <= 4 && verdict == #[trigger] strength_verdict(
                        self.policy(),
                        Some(score),
                    )
            },
            verdict is Ok ==> structure_verdict(self.policy(), password@) is Ok,
    {
        let chars = chars_of(password);
        match self.check_structure(&chars) {
            Err(e) => Err(e),
            Ok(()) => {
                if self.config.min_strength_score == 0 {
                    assert(strength_verdict(self.config, None) == Ok::<(), PasswordPolicyError>(()));
                    Ok(())
                } else {
                    let score = estimate(password);
                    let verdict = self.check_password(password, score);
                    assert(verdict == strength_verdict(self.config, score));
                    verdict
                }
            },
        }
    }

    /// Hashes a password, given the estimator's score for it and the salt to
    /// hash under.
    ///
    /// The result is exactly `hashing`. Every hash returned embeds the salt and
    /// the policy's cost parameters and verifies against the password.
    pub fn hash_password_with(&self, password: &str, score: Option<u8>, salt: &str) -> (hashed: Result<
        String,
        PasswordError,
    >)
        ensures
            hash_view(hashed) == hashing(self.policy(), password@, score, salt@),
            hashed matches Ok(hash) ==> {
                &&& verification(password@, hash@) == Ok::<bool, PasswordError>(true)
                &&& hash_costs(hash@) == Some(policy_costs(self.policy()))
                &&& hash_salt(hash@) == Some(salt@)
            },
    {
        match self.check_password(password, score) {
            Err(rule) => {
                return Err(PasswordError::Policy(rule));
            },
            Ok(()) => {},
        }
        if !self.config.has_valid_cost_parameters() {
            return Err(PasswordError::InvalidCostParameters);
        }
        match argon2id_hash(
            password,
            salt,
            self.config.memory_cost,
            self.config.time_cost,
            self.config.parallelism,
        ) {
            Ok(hash) => Ok(hash),
            Err(_) => Err(PasswordError::HashingFailed),
        }
    }

    /// Hashes a password that meets the policy, under a fresh random salt.
    ///
    /// The estimator is asked where the policy needs a score, a salt is drawn,
    /// and the result is that of `hash_password_with` for the two: a password
    /// that fails the policy is refused and never reaches the hasher, and every
    /// hash returned carries the policy's cost parameters and verifies against
    /// the password it was made from.
    pub fn hash_password(&self, password: &str) -> (hashed: Result<String, PasswordError>)
        ensures
            exists|score: Option<u8>, salt: Seq<char>|
                (score matches Some(s) ==> s <= 4) && hash_view(hashed) == #[trigger] hashing(
                    self.policy(),
                    password@,
                    score,
                    salt,
                ),
            structure_verdict(self.policy(), password@) matches Err(rule) ==> hash_view(hashed)
                == Err::<Seq<char>, PasswordError>(PasswordError::Policy(rule)),
            hashed matches Ok(hash) ==> {
                &&& structure_verdict(self.policy(), password@) is Ok
                &&& cost_parameters_valid(
                    self.policy().memory_cost,
                    self.policy().time_cost,
                    self.policy().parallelism,
                )
                &&& verification(password@, hash@) == Ok::<bool, PasswordError>(true)
                &&& hash_costs(hash@) == Some(policy_costs(self.policy()))
            },
            hashed matches Err(PasswordError::Policy(rule)) ==> {
                ||| structure_verdict(self.policy(), password@) == Err::<(), PasswordPolicyError>(
                    rule,
                )
                ||| {
                    &&& structure_verdict(self.policy(), password@) is Ok
                    &&& self.policy().min_strength_score > 0
                    &&& (rule == PasswordPolicyError::StrengthUnknown || (rule matches PasswordPolicyError::TooWeak {
                        score,
                    } && score < self.policy().min_strength_score))
                }
            },
            hashed matches Err(PasswordError::InvalidCostParameters) ==> {
                &&& structure_verdict(self.policy(), password@) is Ok
                &&& !cost_parameters_valid(
                    self.policy().memory_cost,
                    self.policy().time_cost,
                    self.policy().parallelism,
                )
            },
            hashed matches Err(PasswordError::HashingFailed) ==> {
                &&& structure_verdict(self.policy(), password@) is Ok
                &&& cost_parameters_valid(
                    self.policy().memory_cost,
                    self.policy().time_cost,
                    self.policy().parallelism,
                )
            },
            !(hashed matches Err(PasswordError::MalformedHash)),
    {
        let score = if self.config.min_strength_score == 0 {
            None
        } else {
            estimate(password)
        };
        match self.check_password(password, score) {
            Err(rule) => {
                assert(hashing(self.config, password@, score, Seq::empty()) == Err::<
                    Seq<char>,
                    PasswordError,
                >(PasswordError::Policy(rule)));
                return Err(PasswordError::Policy(rule));
            },
            Ok(()) => {},
        }
        let salt = fresh_salt();
        let hashed = self.hash_password_with(password, score, salt.as_str());
        assert(hash_view(hashed) == hashing(self.config, password@, score, salt@));
        hashed
    }

    /// Verifies a password against a stored hash.
    ///
    /// The digest is recomputed under the parameters embedded in the hash. A
    /// hash that parses and does not match gives `Ok(false)`; a string that is
    /// no usable hash gives `MalformedHash`, and so does one that names a
    /// parallelism of more than `PARALLELISM_DIGITS` digits, which is never
    /// handed to the verifier.
    pub fn verify_password(&self, password: &str, hash: &str) -> (checked: Result<
        bool,
        PasswordError,
    >)
        ensures
            checked == verification(password@, hash@),
    {
        if !is_verifiable(hash) {
            return Err(PasswordError::MalformedHash);
        }
        match argon2_verify(password, hash) {
            Ok(matches) => Ok(matches),
            Err(_) => Err(PasswordError::MalformedHash),
        }
    }

    /// Whether the password, in lower case, is one of the most common ones.
    pub fn is_common_pattern(&self, password: &str) -> (common: bool)
        ensures
            common == (lowercase_of(password@) == "password"@ || lowercase_of(password@)
                == "123456"@ || lowercase_of(password@) == "qwerty"@),
    {
        let lowered = to_lowercase(password);
        str_equals(lowered.as_str(), "password") || str_equals(lowered.as_str(), "123456")
            || str_equals(lowered.as_str(), "qwerty")
    }

    /// Makes the password that the given draws make.
    ///
    /// One character is picked for each required class, the rest from the whole
    /// alphabet, and the result is shuffled, every pick and every exchange by
    /// the draw that stands for it: the password is exactly `generated`. It
    /// holds a character of every required class, and where its length lies
    /// within the policy's bounds it passes every structural rule.
    pub fn generate_secure_password_with(&self, length: Option<usize>, draws: &Draws) -> (password:
        String)
        ensures
            password@ == generated(self.policy(), length, *draws),
            password@.len() == generated_length(self.policy(), length),
            forall|i: int| 0 <= i < password@.len() ==> in_generator_alphabet(password@[i]),
            self.policy().require_uppercase ==> has_class(password@, CharClass::Uppercase),
            self.policy().require_lowercase ==> has_class(password@, CharClass::Lowercase),
            self.policy().require_numbers ==> has_class(password@, CharClass::Number),
            self.policy().require_special ==> has_class(password@, CharClass::Special),
            self.policy().min_length <= generated_length(self.policy(), length)
                <= self.policy().max_length ==> structure_verdict(self.policy(), password@) is Ok,
    {
        let asked = match length {
            Some(n) => n,
            None => if self.config.min_length > 16 {
                self.config.min_length
            } else {
                16
            },
        };
        proof {
            lemma_alphabets();
            lemma_full_alphabet();
        }
        let mut chars: Vec<char> = Vec::new();
        let ghost mut upper_at: int = -1;
        let ghost mut lower_at: int = -1;
        let ghost mut number_at: int = -1;
        let ghost mut special_at: int = -1;
        if self.config.require_uppercase {
            let c = pick("ABCDEFGHIJKLMNOPQRSTUVWXYZ", draw(&draws.seeds, chars.len()));
            proof {
                upper_at = chars.len() as int;
            }
            chars.push(c);
        }
        if self.config.require_lowercase {
            let c = pick("abcdefghijklmnopqrstuvwxyz", draw(&draws.seeds, chars.len()));
            proof {
                lower_at = chars.len() as int;
            }
            chars.push(c);
        }
        if self.config.require_numbers {
            let c = pick("0123456789", draw(&draws.seeds, chars.len()));
            proof {
                number_at = chars.len() as int;
            }
            chars.push(c);
        }
        if self.config.require_special {
            let c = pick("!@#$%^&*()_+-=[]{}|;:,.<>?", draw(&draws.seeds, chars.len()));
            proof {
                special_at = chars.len() as int;
            }
            chars.push(c);
        }
        assert(chars@ == seeded(self.config, draws.seeds@));
        assert(chars.len() == required_classes(self.config));
        let ghost seeds = chars@;
        let seed_count = chars.len();
        while chars.len() < asked
            invariant
                seeds.len() == seed_count == required_classes(self.config),
                seed_count <= chars.len(),
                chars.len() <= asked || chars.len() == seed_count,
                chars@ == filled(seeds, draws.fill@, (chars.len() - seed_count) as nat),
                forall|i: int| 0 <= i < chars.len() ==> in_generator_alphabet(chars@[i]),
                self.config.require_uppercase ==> 0 <= upper_at < chars.len() && 'A'
                    <= chars@[upper_at] <= 'Z',
                self.config.require_lowercase ==> 0 <= lower_at < chars.len() && 'a'
                    <= chars@[lower_at] <= 'z',
                self.config.require_numbers ==> 0 <= number_at < chars.len() && '0'
                    <= chars@[number_at] <= '9',
                self.config.require_special ==> 0 <= special_at < chars.len()
                    && is_generator_special(chars@[special_at]),
                full_alphabet().len() == 88,
                forall|i: int| 0 <= i < 88 ==> in_generator_alphabet(#[trigger] full_alphabet()[i]),
            decreases asked - chars.len(),
        {
            let c = pick(
                "ABCDEFGHIJKLMNOPQRSTUVWXYZabcdefghijklmnopqrstuvwxyz0123456789!@#$%^&*()_+-=[]{}|;:,.<>?",
                draw(&draws.fill, chars.len() - seed_count),
            );
            chars.push(c);
        }
        assert(chars.len() == generated_length(self.config, length));
        let ghost base = chars@;
        assert(asked == requested_length(self.config, length));
        assert(base == if asked > seeds.len() {
            filled(seeds, draws.fill@, (asked - seeds.len()) as nat)
        } else {
            seeds
        });
        let total = chars.len();
        let mut i: usize = total;
        while i > 1
            invariant
                i <= total,
                total <= 1 ==> i == total,
                total >= 1 ==> i >= 1,
                base.len() == total,
                chars.len() == total,
                chars@ == shuffled(base, draws.shuffle@, (total - i) as nat),
                forall|k: int| 0 <= k < chars.len() ==> in_generator_alphabet(chars@[k]),
                self.config.require_uppercase ==> 0 <= upper_at < chars.len() && 'A'
                    <= chars@[upper_at] <= 'Z',
                self.config.require_lowercase ==> 0 <= lower_at < chars.len() && 'a'
                    <= chars@[lower_at] <= 'z',
                self.config.require_numbers ==> 0 <= number_at < chars.len() && '0'
                    <= chars@[number_at] <= '9',
                self.config.require_special ==> 0 <= special_at < chars.len()
                    && is_generator_special(chars@[special_at]),
            decreases i,
        {
            i -= 1;
            let j = draw(&draws.shuffle, total - 1 - i) % (i + 1);
            swap_chars(&mut chars, i, j);
            proof {
                upper_at = if upper_at == i { j as int } else if upper_at == j { i as int } else { upper_at };
                lower_at = if lower_at == i { j as int } else if lower_at == j { i as int } else { lower_at };
                number_at = if number_at == i { j as int } else if number_at == j { i as int } else { number_at };
                special_at = if special_at == i { j as int } else if special_at == j { i as int } else { special_at };
            }
        }
        assert(chars@ == generated(self.config, length, *draws)) by {
            if total > 1 {
                assert(i == 1);
            } else {
                assert(shuffled(base, draws.shuffle@, 0) == base);
            }
        }
        proof {
            if self.config.require_uppercase {
                assert(in_class(CharClass::Uppercase, chars@[upper_at]));
            }
            if self.config.require_lowercase {
                assert(in_class(CharClass::Lowercase, chars@[lower_at]));
            }
            if self.config.require_numbers {
                assert(in_class(CharClass::Number, chars@[number_at]));
            }
            if self.config.require_special {
                assert(in_class(CharClass::Special, chars@[special_at]));
            }
        }
        string_of(&chars)
    }

    /// Generates a random password that holds a character of every class the
    /// policy requires.
    ///
    /// The indices are drawn at random, one for each seed, for each further
    /// character and for each step of the shuffle, each from its own range; the
    /// password is the one that `generate_secure_password_with` makes of them.
    /// Where its length lies within the policy's bounds it passes every
    /// structural rule; its strength score is not known in advance.
    pub fn generate_secure_password(&self, length: Option<usize>) -> (password: String)
        ensures
            exists|draws: Draws| password@ == #[trigger] generated(self.policy(), length, draws),
            password@.len() == generated_length(self.policy(), length),
            forall|i: int| 0 <= i < password@.len() ==> in_generator_alphabet(password@[i]),
            self.policy().require_uppercase ==> has_class(password@, CharClass::Uppercase),
            self.policy().require_lowercase ==> has_class(password@, CharClass::Lowercase),
            self.policy().require_numbers ==> has_class(password@, CharClass::Number),
            self.policy().require_special ==> has_class(password@, CharClass::Special),
            self.policy().min_length <= generated_length(self.policy(), length)
                <= self.policy().max_length ==> structure_verdict(self.policy(), password@) is Ok,
    {
        let asked = match length {
            Some(n) => n,
            None => if self.config.min_length > 16 {
                self.config.min_length
            } else {
                16
            },
        };
        let mut seeds: Vec<usize> = Vec::new();
        if self.config.require_uppercase {
            seeds.push(random_below(26));
        }
        if self.config.require_lowercase {
            seeds.push(random_below(26));
        }
        if self.config.require_numbers {
            seeds.push(random_below(10));
        }
        if self.config.require_special {
            seeds.push(random_below(26));
        }
        let total = if asked > seeds.len() {
            asked
        } else {
            seeds.len()
        };
        let mut fill: Vec<usize> = Vec::new();
        while fill.len() < total - seeds.len()
            invariant
                seeds.len() <= total,
            decreases total - seeds.len() - fill.len(),
        {
            fill.push(random_below(88));
        }
        let mut shuffle: Vec<usize> = Vec::new();
        let mut i: usize = total;
        while i > 1
            invariant
                i <= total,
            decreases i,
        {
            i -= 1;
            shuffle.push(random_below(i + 1));
        }
        let draws = Draws { seeds, fill, shuffle };
        let password = self.generate_secure_password_with(length, &draws);
        assert(password@ == generated(self.config, length, draws));
        password
    }
}

} // verus!
