//! The address of the Nauticoncept API's message webhook.
use vstd::prelude::*;
use vstd::string::*;

verus! {

/// The webhook address under the API's base address `base_url`; none when
/// no base address is configured.
pub fn nauticoncept_webhook_url(base_url: &str) -> (r: Option<String>)
    ensures
        base_url@.len() == 0 ==> r is None,
        base_url@.len() != 0 ==> (r matches Some(u) && u@ == base_url@ + "/modmessage-ttk/message-webhook"@),
{
    if base_url.is_empty() {
        None
    } else {
        let mut url = String::from_str(base_url);
        url.append("/modmessage-ttk/message-webhook");
        Some(url)
    }
}

} // verus!
