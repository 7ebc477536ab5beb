//! Identity profiles: validated construction, and the checksum-derived
//! discriminant computed as a pure function of an identity's two exported
//! public keys.
//!
//! A profile name may hold at most 64 bytes, all ASCII letters, digits,
//! `-` or `_`. The discriminant disambiguates identically-named
//! identities; the full profile ID is `name#discriminant`.

use vstd::prelude::*;
use vstd::string::StringSliceAdditionalSpecFns;
use vstd::utf8::encode_utf8;

use crate::context::{EncryptionContext, EncryptionContextV};
use crate::error::{Error, UserError};

verus! {

/// Bytes allowed in a profile name: ASCII letters (65..90 and 97..122),
/// digits (48..57), `-` (45) and `_` (95).
pub open spec fn valid_name_byte(b: u8) -> bool {
    (97 <= b <= 122) || (65 <= b <= 90) || (48 <= b <= 57) || b == 45 || b == 95
}

/// A valid profile name: at most 64 bytes, all from the allowed set.
pub open spec fn valid_profile_name(bytes: Seq<u8>) -> bool {
    bytes.len() <= 64 && (forall|i: int| 0 <= i < bytes.len() ==> valid_name_byte(bytes[i]))
}

/// What the CRC-16/IBM-SDLC algorithm computes over a byte sequence.
pub uninterp spec fn crc16_of(bytes: Seq<u8>) -> u16;

/// Relies on crc's Crc::<u16> with the CRC_16_IBM_SDLC algorithm: the
/// checksum is a function of the input bytes alone.
#[verifier::external_body]
fn crc16_ibm_sdlc(data: &Vec<u8>) -> (r: u16)
    ensures
        r == crc16_of(data@),
{
    crc::Crc::<u16>::new(&crc::CRC_16_IBM_SDLC).checksum(data.as_slice())
}

/// The uppercase hex digit for a value below 16.
pub open spec fn spec_hex_digit(n: int) -> char {
    if n == 0 {
        '0'
    } else if n == 1 {
        '1'
    } else if n == 2 {
        '2'
    } else if n == 3 {
        '3'
    } else if n == 4 {
        '4'
    } else if n == 5 {
        '5'
    } else if n == 6 {
        '6'
    } else if n == 7 {
        '7'
    } else if n == 8 {
        '8'
    } else if n == 9 {
        '9'
    } else if n == 10 {
        'A'
    } else if n == 11 {
        'B'
    } else if n == 12 {
        'C'
    } else if n == 13 {
        'D'
    } else if n == 14 {
        'E'
    } else {
        'F'
    }
}

/// Uppercase hex digits of `n`, most significant first, no leading zeros;
/// empty for zero.
pub open spec fn spec_hex_digits(n: nat) -> Seq<char>
    decreases n,
{
    if n == 0 {
        Seq::empty()
    } else {
        spec_hex_digits(n / 16) + seq![spec_hex_digit(n as int % 16)]
    }
}

/// What uppercase-hex formatting renders a 16-bit value as: its digits
/// without leading zeros, or `"0"` for zero.
pub open spec fn spec_hex_u16(n: u16) -> Seq<char> {
    if n == 0 {
        seq!['0']
    } else {
        spec_hex_digits(n as nat)
    }
}

/// Relies on core's uppercase-hex formatting (`{:X}`): most significant
/// digit first, no leading zeros, `"0"` for zero.
#[verifier::external_body]
fn format_hex_u16(n: u16) -> (r: String)
    ensures
        r@ == spec_hex_u16(n),
{
    format!("{:X}", n)
}

/// Relies on core's string formatting: the profile ID is the name, `'#'`,
/// and the discriminant, concatenated in that order.
#[verifier::external_body]
fn join_profile_id(name: &str, discriminant: &str) -> (r: String)
    ensures
        r@ == name@ + seq!['#'] + discriminant@,
{
    format!("{}#{}", name, discriminant)
}

/// The checksum-derived discriminant of a pair of exported public keys:
/// the CRC-16/IBM-SDLC checksum of the encapsulation key bytes followed by
/// the signing key bytes, rendered in uppercase hex.
pub open spec fn spec_discriminant(kem_public: Seq<u8>, sig_public: Seq<u8>) -> Seq<char> {
    spec_hex_u16(crc16_of(kem_public + sig_public))
}

/// The text of an optional string.
pub open spec fn opt_text(o: Option<String>) -> Option<Seq<char>> {
    match o {
        Some(s) => Some(s@),
        None => None,
    }
}

/// Check a profile name against the naming rule; the exact error reports
/// either the offending length or the offending text.
pub fn validate_name(name: &str) -> (r: Result<(), Error>)
    ensures
        r is Ok <==> valid_profile_name(name.spec_bytes()),
        name.spec_bytes().len() > 64 ==> r == Err::<(), Error>(
            Error::UserError(
                UserError::ProfileNameLength { length: name.spec_bytes().len() as usize },
            ),
        ),
        r is Err && name.spec_bytes().len() <= 64 ==> (r matches Err(
            Error::UserError(UserError::ProfileNameCharacters { provided }),
        ) && provided@ == name@),
{
    let bytes = name.as_bytes();
    if bytes.len() > 64 {
        return Err(Error::UserError(UserError::prof_name_length(bytes.len())));
    }
    let mut i: usize = 0;
    while i < bytes.len()
        invariant
            i <= bytes@.len(),
            bytes@ == name.spec_bytes(),
            bytes@.len() <= 64,
            forall|j: int| 0 <= j < i ==> valid_name_byte(bytes@[j]),
        decreases bytes@.len() - i,
    {
        let b = bytes[i];
        if !((97 <= b && b <= 122) || (65 <= b && b <= 90) || (48 <= b && b <= 57) || b == 45 || b
            == 95) {
            return Err(Error::UserError(UserError::prof_name_chars(name)));
        }
        i = i + 1;
    }
    Ok(())
}

/// Copy of an optional string.
fn clone_opt_string(o: &Option<String>) -> (r: Option<String>)
    ensures
        opt_text(r) == opt_text(*o),
{
    match o {
        Some(s) => Some(s.clone()),
        None => None,
    }
}

/// The public face of a profile, safe to hand to peers: the name and
/// discriminant, optional display data, and the paired public keys.
pub struct PublicProfileData {
    pub profile_name: String,
    pub discriminant: String,
    pub display_name: Option<String>,
    pub pronouns: Option<String>,
    pub signing_key: Vec<u8>,
    pub encryption_key: Vec<u8>,
}

impl PublicProfileData {
    /// The bare profile name.
    pub fn profile_name(&self) -> (r: String)
        ensures
            r@ == self.profile_name@,
    {
        self.profile_name.clone()
    }

    /// The checksum-derived discriminant.
    pub fn discriminant(&self) -> (r: String)
        ensures
            r@ == self.discriminant@,
    {
        self.discriminant.clone()
    }

    /// The full profile ID, `name#discriminant`.
    pub fn profile_id(&self) -> (r: String)
        ensures
            r@ == self.profile_name@ + seq!['#'] + self.discriminant@,
    {
        join_profile_id(self.profile_name.as_str(), self.discriminant.as_str())
    }
}

/// Abstract value of a [`Profile`].
#[verifier::ext_equal]
pub struct ProfileV {
    pub profile_name: Seq<char>,
    pub context: EncryptionContextV,
    pub display_name: Option<Seq<char>>,
    pub pronouns: Option<Seq<char>>,
    pub preferred_relay: Option<Seq<char>>,
}

/// A local identity: its name, its cryptographic capability bundle, and
/// optional display data and relay preference.
pub struct Profile {
    profile_name: String,
    encryption_context: EncryptionContext,
    display_name: Option<String>,
    pronouns: Option<String>,
    preferred_relay: Option<String>,
}

impl View for Profile {
    type V = ProfileV;

    closed spec fn view(&self) -> ProfileV {
        ProfileV {
            profile_name: self.profile_name@,
            context: self.encryption_context@,
            display_name: opt_text(self.display_name),
            pronouns: opt_text(self.pronouns),
            preferred_relay: opt_text(self.preferred_relay),
        }
    }
}

impl Profile {
    /// Start assembling a profile.
    pub fn builder() -> (r: ProfileBuilder)
        ensures
            r@ == (ProfileBuilderV {
                profile_name: None,
                context: None,
                display_name: None,
                pronouns: None,
                preferred_relay: None,
            }),
    {
        ProfileBuilder {
            profile_name: None,
            encryption_context: None,
            display_name: None,
            pronouns: None,
            preferred_relay: None,
        }
    }

    /// The profile's name.
    pub fn profile_name(&self) -> (r: String)
        ensures
            r@ == self@.profile_name,
    {
        self.profile_name.clone()
    }

    /// The checksum-derived discriminant of this identity's exported
    /// public keys.
    pub fn discriminant(&self) -> (r: String)
        ensures
            r@ == spec_discriminant(self@.context.kem_public, self@.context.sig_public),
    {
        let (encryption, signing) = self.encryption_context.public_keys();
        let mut keycomb = encryption;
        let mut signing_tail = signing;
        keycomb.append(&mut signing_tail);
        format_hex_u16(crc16_ibm_sdlc(&keycomb))
    }

    /// The full profile ID, `name#discriminant`.
    pub fn profile_id(&self) -> (r: String)
        ensures
            r@ == self@.profile_name + seq!['#'] + spec_discriminant(
                self@.context.kem_public,
                self@.context.sig_public,
            ),
    {
        let discriminant = self.discriminant();
        join_profile_id(self.profile_name.as_str(), discriminant.as_str())
    }

    /// This identity's cryptographic capability bundle.
    pub fn encryption_context(&self) -> (r: &EncryptionContext)
        ensures
            r@ == self@.context,
    {
        &self.encryption_context
    }

    /// The relay this identity prefers, if any.
    pub fn preferred_relay(&self) -> (r: &Option<String>)
        ensures
            opt_text(*r) == self@.preferred_relay,
    {
        &self.preferred_relay
    }

    /// Export the public face of this profile: name, discriminant,
    /// display data, and the paired public keys.
    pub fn public_profile(&self) -> (r: PublicProfileData)
        ensures
            r.profile_name@ == self@.profile_name,
            r.discriminant@ == spec_discriminant(self@.context.kem_public, self@.context.sig_public),
            opt_text(r.display_name) == self@.display_name,
            opt_text(r.pronouns) == self@.pronouns,
            r.encryption_key@ == self@.context.kem_public,
            r.signing_key@ == self@.context.sig_public,
    {
        let (encryption, signing) = self.encryption_context.public_keys();
        PublicProfileData {
            profile_name: self.profile_name.clone(),
            discriminant: self.discriminant(),
            display_name: clone_opt_string(&self.display_name),
            pronouns: clone_opt_string(&self.pronouns),
            signing_key: signing,
            encryption_key: encryption,
        }
    }
}

/// Abstract value of a [`ProfileBuilder`].
#[verifier::ext_equal]
pub struct ProfileBuilderV {
    pub profile_name: Option<Seq<char>>,
    pub context: Option<EncryptionContextV>,
    pub display_name: Option<Seq<char>>,
    pub pronouns: Option<Seq<char>>,
    pub preferred_relay: Option<Option<Seq<char>>>,
}

/// Step-by-step assembly of a [`Profile`], validated on build.
pub struct ProfileBuilder {
    profile_name: Option<String>,
    encryption_context: Option<EncryptionContext>,
    display_name: Option<String>,
    pronouns: Option<String>,
    preferred_relay: Option<Option<String>>,
}

impl View for ProfileBuilder {
    type V = ProfileBuilderV;

    closed spec fn view(&self) -> ProfileBuilderV {
        ProfileBuilderV {
            profile_name: opt_text(self.profile_name),
            context: match self.encryption_context {
                Some(c) => Some(c@),
                None => None,
            },
            display_name: opt_text(self.display_name),
            pronouns: opt_text(self.pronouns),
            preferred_relay: match self.preferred_relay {
                Some(o) => Some(opt_text(o)),
                None => None,
            },
        }
    }
}

impl ProfileBuilder {
    /// Set the profile name; validated when the profile is built.
    pub fn profile_name(&mut self, name: String)
        ensures
            final(self)@ == (ProfileBuilderV { profile_name: Some(name@), ..old(self)@ }),
    {
        self.profile_name = Some(name);
    }

    /// Supply the identity's cryptographic capability bundle.
    pub fn encryption_context(&mut self, context: EncryptionContext)
        ensures
            final(self)@ == (ProfileBuilderV { context: Some(context@), ..old(self)@ }),
    {
        self.encryption_context = Some(context);
    }

    /// Set the display name.
    pub fn display_name(&mut self, value: String)
        ensures
            final(self)@ == (ProfileBuilderV { display_name: Some(value@), ..old(self)@ }),
    {
        self.display_name = Some(value);
    }

    /// Set the pronouns.
    pub fn pronouns(&mut self, value: String)
        ensures
            final(self)@ == (ProfileBuilderV { pronouns: Some(value@), ..old(self)@ }),
    {
        self.pronouns = Some(value);
    }

    /// Prefer the given relay.
    pub fn with_relay(&mut self, url: String)
        ensures
            final(self)@ == (ProfileBuilderV {
                preferred_relay: Some(Some(url@)),
                ..old(self)@
            }),
    {
        self.preferred_relay = Some(Some(url));
    }

    /// Prefer no relay at all.
    pub fn without_relay(&mut self)
        ensures
            final(self)@ == (ProfileBuilderV { preferred_relay: Some(None), ..old(self)@ }),
    {
        self.preferred_relay = Some(None);
    }

    /// Assemble the profile. Fails with the exact naming error if the name
    /// breaks the naming rule, and with `UninitializedField` if the name
    /// or the capability bundle was never supplied.
    pub fn build(&self) -> (r: Result<Profile, Error>)
        ensures
            r is Ok <==> (self@.profile_name is Some && valid_profile_name(
                encode_utf8(self@.profile_name.unwrap()),
            ) && self@.context is Some),
            r is Ok ==> r.unwrap()@ == (ProfileV {
                profile_name: self@.profile_name.unwrap(),
                context: self@.context.unwrap(),
                display_name: self@.display_name,
                pronouns: self@.pronouns,
                preferred_relay: match self@.preferred_relay {
                    Some(o) => o,
                    None => None,
                },
            }),
            self@.profile_name is Some && encode_utf8(self@.profile_name.unwrap()).len() > 64
                ==> r == Err::<Profile, Error>(
                Error::UserError(
                    UserError::ProfileNameLength {
                        length: encode_utf8(self@.profile_name.unwrap()).len() as usize,
                    },
                ),
            ),
            self@.profile_name is Some && encode_utf8(self@.profile_name.unwrap()).len() <= 64
                && !valid_profile_name(encode_utf8(self@.profile_name.unwrap())) ==> (r matches Err(
                Error::UserError(UserError::ProfileNameCharacters { provided }),
            ) && provided@ == self@.profile_name.unwrap()),
            self@.profile_name is None ==> r == Err::<Profile, Error>(Error::UninitializedField),
            self@.profile_name is Some && valid_profile_name(
                encode_utf8(self@.profile_name.unwrap()),
            ) && self@.context is None ==> r == Err::<Profile, Error>(Error::UninitializedField),
    {
        let name = match &self.profile_name {
            Some(n) => n,
            None => {
                return Err(Error::UninitializedField);
            },
        };
        match validate_name(name.as_str()) {
            Ok(()) => (),
            Err(e) => {
                return Err(e);
            },
        }
        let context = match &self.encryption_context {
            Some(c) => c,
            None => {
                return Err(Error::UninitializedField);
            },
        };
        Ok(
            Profile {
                profile_name: name.clone(),
                encryption_context: context.duplicate(),
                display_name: clone_opt_string(&self.display_name),
                pronouns: clone_opt_string(&self.pronouns),
                preferred_relay: match &self.preferred_relay {
                    Some(o) => clone_opt_string(o),
                    None => None,
                },
            },
        )
    }
}

} // verus!
