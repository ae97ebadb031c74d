use crate::schemas::{FeeType, NetworkRole};
use vstd::prelude::*;

verus! {

/// The kinds of business credential (vector) an account may hold.
#[derive(Clone, Copy, Debug, PartialEq, Eq, Structural)]
pub enum VectorType {
    Gstin,
    PanCardNo,
    ImportLicenseNo,
}

#[derive(Clone, Debug)]
pub struct VectorValue {
    pub vector_type: VectorType,
    pub value: String,
}

/// A document on file for a business, such as an import licence.
#[derive(Clone, Debug)]
pub struct KycProof {
    pub proof_type: VectorType,
    pub kyc_id: String,
    pub urls: Vec<String>,
}

#[derive(Clone, Debug)]
pub struct UserAccount {
    pub id: u128,
    pub name: String,
}

#[derive(Clone, Debug)]
pub struct BusinessAccount {
    pub id: u128,
    pub company_name: String,
    pub default_vector_type: VectorType,
    pub vectors: Vec<VectorValue>,
    pub proofs: Vec<KycProof>,
}

/// The caller's own registration on the network: identity, buyer fee and
/// the bank account it settles into.
#[derive(Clone, Debug)]
pub struct RegisteredNetworkParticipant {
    pub subscriber_id: String,
    pub subscriber_uri: String,
    pub fee_type: FeeType,
    pub fee_value: String,
    pub settlement_phase: String,
    pub settlement_type: String,
    pub bank_account_no: String,
    pub bank_ifsc_code: String,
    pub bank_beneficiary_name: String,
    pub bank_name: String,
}

/// Routing and key material of a remote participant.
#[derive(Clone, Debug)]
pub struct ParticipantEntry {
    pub subscriber_id: String,
    pub role: NetworkRole,
    pub domain: String,
    pub subscriber_uri: String,
    pub signing_public_key: String,
    pub encr_public_key: String,
    pub br_id: String,
    pub uk_id: String,
}

/// The protocol's code for a credential type.
pub open spec fn vector_code(t: VectorType) -> Seq<char> {
    match t {
        VectorType::Gstin => "gstin"@,
        VectorType::PanCardNo => "pan"@,
        VectorType::ImportLicenseNo => "import_license_no"@,
    }
}

pub fn vector_code_string(t: VectorType) -> (r: String)
    ensures
        r@ == vector_code(t),
{
    match t {
        VectorType::Gstin => {
            proof {
                reveal_strlit("gstin");
            }
            String::from_str("gstin")
        },
        VectorType::PanCardNo => {
            proof {
                reveal_strlit("pan");
            }
            String::from_str("pan")
        },
        VectorType::ImportLicenseNo => {
            proof {
                reveal_strlit("import_license_no");
            }
            String::from_str("import_license_no")
        },
    }
}

/// The protocol's code for a fee type.
pub open spec fn fee_code(t: FeeType) -> Seq<char> {
    match t {
        FeeType::Percent => "percent"@,
        FeeType::Amount => "amount"@,
    }
}

pub fn fee_code_string(t: FeeType) -> (r: String)
    ensures
        r@ == fee_code(t),
{
    match t {
        FeeType::Percent => {
            proof {
                reveal_strlit("percent");
            }
            String::from_str("percent")
        },
        FeeType::Amount => {
            proof {
                reveal_strlit("amount");
            }
            String::from_str("amount")
        },
    }
}

/// The index of the first credential of the type, if any.
pub open spec fn first_vector_index(vs: Seq<VectorValue>, t: VectorType) -> Option<int>
    decreases vs.len(),
{
    if vs.len() == 0 {
        None
    } else {
        match first_vector_index(vs.drop_last(), t) {
            Some(i) => Some(i),
            None => if vs.last().vector_type == t {
                Some(vs.len() - 1)
            } else {
                None
            },
        }
    }
}

pub proof fn lemma_first_vector_index(vs: Seq<VectorValue>, t: VectorType)
    ensures
        first_vector_index(vs, t) is Some ==> {
            let i = first_vector_index(vs, t)->0;
            &&& 0 <= i < vs.len()
            &&& vs[i].vector_type == t
            &&& forall|j: int| 0 <= j < i ==> vs[j].vector_type != t
        },
        first_vector_index(vs, t) is None ==> forall|j: int|
            0 <= j < vs.len() ==> vs[j].vector_type != t,
    decreases vs.len(),
{
    if vs.len() > 0 {
        lemma_first_vector_index(vs.drop_last(), t);
        assert forall|j: int| 0 <= j < vs.len() - 1 implies vs.drop_last()[j] == vs[j] by {}
    }
}

/// The value of the account's default credential, which identifies the buyer.
pub open spec fn buyer_id_value(b: BusinessAccount) -> Option<Seq<char>> {
    match first_vector_index(b.vectors@, b.default_vector_type) {
        Some(i) => Some(b.vectors@[i].value@),
        None => None,
    }
}

/// The first credential of the type in the list.
pub fn get_vector_val_from_list(t: VectorType, vectors: &Vec<VectorValue>) -> (r: Option<usize>)
    ensures
        r is Some <==> first_vector_index(vectors@, t) is Some,
        r is Some ==> r->0 as int == first_vector_index(vectors@, t)->0,
{
    let mut i: usize = 0;
    while i < vectors.len()
        invariant
            i <= vectors@.len(),
            forall|j: int| 0 <= j < i ==> vectors@[j].vector_type != t,
        decreases vectors.len() - i,
    {
        if vectors[i].vector_type == t {
            proof {
                lemma_first_vector_index(vectors@, t);
            }
            return Some(i);
        }
        i = i + 1;
    }
    proof {
        lemma_first_vector_index(vectors@, t);
    }
    None
}

} // verus!
