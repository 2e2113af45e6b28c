//! The objects that a device holds, as the library sees them.

use vstd::prelude::*;

verus! {

/// The type of an object on the device.
#[derive(Clone, Copy, Debug, PartialEq, Eq, Structural)]
pub enum ObjectType {
    /// Raw data.
    Opaque,
    /// A key that opens sessions.
    AuthenticationKey,
    /// An asymmetric private key.
    AsymmetricKey,
    /// A key that wraps other keys for export and import.
    WrapKey,
    /// An HMAC secret key.
    HmacKey,
    /// A template for SSH certificate requests.
    Template,
    /// A Yubico OTP key.
    OtpAeadKey,
}

impl ObjectType {
    /// The byte by which the device knows this type.
    pub open spec fn spec_code(self) -> u8 {
        match self {
            ObjectType::Opaque => 1,
            ObjectType::AuthenticationKey => 2,
            ObjectType::AsymmetricKey => 3,
            ObjectType::WrapKey => 4,
            ObjectType::HmacKey => 5,
            ObjectType::Template => 6,
            ObjectType::OtpAeadKey => 7,
        }
    }

    /// The type that the device knows by this byte, if it knows one.
    pub open spec fn spec_from_code(code: u8) -> Option<ObjectType> {
        if code == 1 {
            Some(ObjectType::Opaque)
        } else if code == 2 {
            Some(ObjectType::AuthenticationKey)
        } else if code == 3 {
            Some(ObjectType::AsymmetricKey)
        } else if code == 4 {
            Some(ObjectType::WrapKey)
        } else if code == 5 {
            Some(ObjectType::HmacKey)
        } else if code == 6 {
            Some(ObjectType::Template)
        } else if code == 7 {
            Some(ObjectType::OtpAeadKey)
        } else {
            None
        }
    }

    /// The name of this type as listings print it.
    pub open spec fn spec_name(self) -> Seq<char> {
        match self {
            ObjectType::Opaque => "Opaque"@,
            ObjectType::AuthenticationKey => "AuthenticationKey"@,
            ObjectType::AsymmetricKey => "AsymmetricKey"@,
            ObjectType::WrapKey => "WrapKey"@,
            ObjectType::HmacKey => "HmacKey"@,
            ObjectType::Template => "Template"@,
            ObjectType::OtpAeadKey => "OtpAeadKey"@,
        }
    }

    #[verifier::when_used_as_spec(spec_code)]
    pub fn code(self) -> (code: u8)
        ensures
            code == self.spec_code(),
            1 <= code <= 7,
            ObjectType::spec_from_code(code) == Some(self),
    {
        match self {
            ObjectType::Opaque => 1,
            ObjectType::AuthenticationKey => 2,
            ObjectType::AsymmetricKey => 3,
            ObjectType::WrapKey => 4,
            ObjectType::HmacKey => 5,
            ObjectType::Template => 6,
            ObjectType::OtpAeadKey => 7,
        }
    }

    pub fn from_code(code: u8) -> (found: Option<ObjectType>)
        ensures
            found == ObjectType::spec_from_code(code),
            found is Some <==> 1 <= code <= 7,
            found matches Some(t) ==> t.spec_code() == code,
    {
        match code {
            1 => Some(ObjectType::Opaque),
            2 => Some(ObjectType::AuthenticationKey),
            3 => Some(ObjectType::AsymmetricKey),
            4 => Some(ObjectType::WrapKey),
            5 => Some(ObjectType::HmacKey),
            6 => Some(ObjectType::Template),
            7 => Some(ObjectType::OtpAeadKey),
            _ => None,
        }
    }

    pub fn name(self) -> (name: &'static str)
        ensures
            name@ == self.spec_name(),
    {
        match self {
            ObjectType::Opaque => "Opaque",
            ObjectType::AuthenticationKey => "AuthenticationKey",
            ObjectType::AsymmetricKey => "AsymmetricKey",
            ObjectType::WrapKey => "WrapKey",
            ObjectType::HmacKey => "HmacKey",
            ObjectType::Template => "Template",
            ObjectType::OtpAeadKey => "OtpAeadKey",
        }
    }
}

/// An algorithm of the device: the byte by which the device knows it, and
/// the name under which listings print it.
#[derive(Clone, Debug)]
pub struct Algorithm {
    pub code: u8,
    pub name: String,
}

/// What an [`Algorithm`] is to the contracts.
pub struct AlgorithmView {
    pub code: u8,
    pub name: Seq<char>,
}

impl View for Algorithm {
    type V = AlgorithmView;

    open spec fn view(&self) -> AlgorithmView {
        AlgorithmView { code: self.code, name: self.name@ }
    }
}

/// One line of the device's answer to a listing: an object's identifier, its
/// type, and how many objects had that identifier and type before it.
#[derive(Clone, Copy, Debug, PartialEq, Eq, Structural)]
pub struct ObjectEntry {
    pub object_id: u16,
    pub object_type: ObjectType,
    pub sequence: u8,
}

/// What the device tells of one object.
#[derive(Clone, Debug)]
pub struct ObjectInfo {
    pub object_id: u16,
    pub object_type: ObjectType,
    pub algorithm: Algorithm,
    pub label: String,
    pub sequence: u8,
}

/// What an [`ObjectInfo`] is to the contracts.
pub struct ObjectInfoView {
    pub object_id: u16,
    pub object_type: ObjectType,
    pub algorithm: AlgorithmView,
    pub label: Seq<char>,
    pub sequence: u8,
}

impl View for ObjectInfo {
    type V = ObjectInfoView;

    open spec fn view(&self) -> ObjectInfoView {
        ObjectInfoView {
            object_id: self.object_id,
            object_type: self.object_type,
            algorithm: self.algorithm@,
            label: self.label@,
            sequence: self.sequence,
        }
    }
}

/// A public key as the device hands it out: for a curve point, `x‖y`.
#[derive(Clone, Debug)]
pub struct PublicKey {
    pub algorithm: Algorithm,
    pub bytes: Vec<u8>,
}

/// What a [`PublicKey`] is to the contracts.
pub struct PublicKeyView {
    pub algorithm: AlgorithmView,
    pub bytes: Seq<u8>,
}

impl View for PublicKey {
    type V = PublicKeyView;

    open spec fn view(&self) -> PublicKeyView {
        PublicKeyView { algorithm: self.algorithm@, bytes: self.bytes@ }
    }
}

/// One row of the inventory: what the device tells of an object and, for an
/// asymmetric key, its public key in hexadecimal.
#[derive(Clone, Debug)]
pub struct ObjectSummary {
    pub object_id: u16,
    pub object_type: ObjectType,
    pub algorithm: Algorithm,
    pub label: String,
    pub sequence: u8,
    pub public_key_hex: Option<String>,
}

/// What an [`ObjectSummary`] is to the contracts.
pub struct ObjectSummaryView {
    pub object_id: u16,
    pub object_type: ObjectType,
    pub algorithm: AlgorithmView,
    pub label: Seq<char>,
    pub sequence: u8,
    pub public_key_hex: Option<Seq<char>>,
}

impl View for ObjectSummary {
    type V = ObjectSummaryView;

    open spec fn view(&self) -> ObjectSummaryView {
        ObjectSummaryView {
            object_id: self.object_id,
            object_type: self.object_type,
            algorithm: self.algorithm@,
            label: self.label@,
            sequence: self.sequence,
            public_key_hex: match self.public_key_hex {
                Some(hex) => Some(hex@),
                None => None,
            },
        }
    }
}

} // verus!
