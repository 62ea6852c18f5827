use vstd::prelude::*;

verus! {

/// The encryption descriptor of one session's message frames: either no
/// payload encryption, or AES with the session's key token. Chosen once at
/// init time and reused for every data frame of that session.
pub enum PayloadEncryption {
    Plain,
    Aes { token: Vec<u8> },
}

/// The mathematical value of an encryption descriptor.
pub enum PayloadEncryptionView {
    Plain,
    Aes { token: Seq<u8> },
}

impl View for PayloadEncryption {
    type V = PayloadEncryptionView;

    open spec fn view(&self) -> PayloadEncryptionView {
        match self {
            PayloadEncryption::Plain => PayloadEncryptionView::Plain,
            PayloadEncryption::Aes { token } => PayloadEncryptionView::Aes { token: token@ },
        }
    }
}

/// Select the encryption descriptor for one session's init exchange and
/// data frames. The mapping is pure: a fresh random value yields AES keyed
/// by exactly that value; without one, payloads stay plain. The user token
/// names the key owner; the key material resolved for it is applied by the
/// envelope layer, outside this library.
#[allow(unused_variables)]
pub fn select_payload_encryption(user_token: &Vec<u8>, random: Option<Vec<u8>>) -> (r:
    PayloadEncryption)
    ensures
        match random {
            Some(b) => r@ == (PayloadEncryptionView::Aes { token: b@ }),
            None => r@ == PayloadEncryptionView::Plain,
        },
{
    match random {
        Some(b) => PayloadEncryption::Aes { token: b },
        None => PayloadEncryption::Plain,
    }
}

} // verus!
