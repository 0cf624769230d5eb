use vstd::prelude::*;

verus! {

/// The MIME type of a BCS-encoded signed transaction.
pub const BCS_SIGNED_TRANSACTION: &'static str = "application/x.aptos.signed_transaction+bcs";

/// The MIME type of a JSON response body.
pub const JSON: &'static str = "application/json";

/// The MIME type of a BCS-encoded response body.
pub const BCS: &'static str = "application/x.aptos.output+bcs";

/// The newer MIME type callers may send to ask for BCS output.
pub const BCS_OUTPUT_NEW: &'static str = "application/x-bcs";

/// The response content types a caller can ask for.
#[derive(Clone, Copy, Debug, PartialEq, Eq, Structural)]
pub enum AcceptType {
    Json,
    Bcs,
}

/// Whether one MIME type asks for BCS output.
pub open spec fn is_bcs_mime(s: Seq<char>) -> bool {
    s == "application/x-bcs"@ || s == "application/x.aptos.output+bcs"@
}

/// Check that the accept type is one of the allowed variants. If there is no
/// overriding explicit accept type, default to JSON.
pub fn parse_accept(mimes: &Vec<String>) -> (t: AcceptType)
    ensures
        t == AcceptType::Bcs <==> exists|i: int| 0 <= i < mimes@.len() && is_bcs_mime(mimes@[i]@),
{
    let bcs_output_new: String = "application/x-bcs".to_owned();
    let bcs: String = "application/x.aptos.output+bcs".to_owned();
    let n = mimes.len();
    let mut i: usize = 0;
    while i < n
        invariant
            i <= n,
            n == mimes@.len(),
            bcs_output_new@ == "application/x-bcs"@,
            bcs@ == "application/x.aptos.output+bcs"@,
            forall|j: int| 0 <= j < i ==> !is_bcs_mime(mimes@[j]@),
        decreases n - i,
    {
        let m: &String = &mimes[i];
        if m.eq(&bcs_output_new) || m.eq(&bcs) {
            return AcceptType::Bcs;
        }
        i = i + 1;
    }
    // Default to returning content as JSON.
    AcceptType::Json
}

} // verus!
