//! The addresses of the Bot API methods that the bot calls.
use vstd::prelude::*;
use vstd::string::*;

use crate::text::{decimal, decimal_reads_back, is_decimal_of, push_decimal};

verus! {

/// The address of a Bot API method for the bot with the given key.
pub open spec fn api_url_view(key: Seq<char>, method: Seq<char>) -> Seq<char> {
    "https://api.telegram.org/bot"@ + key + "/"@ + method
}

/// The `getUpdates` call that asks for the updates after the last one seen.
pub open spec fn update_method_view(last_update_id: Option<i64>) -> Seq<char> {
    match last_update_id {
        None => "getUpdates"@,
        Some(id) => "getUpdates?offset="@ + decimal(id + 1),
    }
}

/// The address of a Bot API method for the bot with the given key.
pub fn api_url(key: &str, method: &str) -> (url: String)
    ensures
        url@ == api_url_view(key@, method@),
        url@ == "https://api.telegram.org/bot"@ + key@ + "/"@ + method@,
{
    let mut url = "https://api.telegram.org/bot".to_owned();
    url.append(key);
    url.append("/");
    url.append(method);
    url
}

/// The `getUpdates` call that asks for the updates after the last one seen,
/// or for all pending updates when none was seen yet.
pub fn update_method(last_update_id: Option<i64>) -> (method: String)
    requires
        last_update_id matches Some(id) ==> id < i64::MAX,
    ensures
        method@ == update_method_view(last_update_id),
        last_update_id is None ==> method@ == "getUpdates"@,
        last_update_id matches Some(id) ==> method@.take(18) == "getUpdates?offset="@
            && is_decimal_of(method@.skip(18), id + 1),
{
    proof { update_method_asks_after_last_seen(last_update_id); }
    match last_update_id {
        None => "getUpdates".to_owned(),
        Some(id) => {
            let mut method = "getUpdates?offset=".to_owned();
            push_decimal(&mut method, id + 1);
            method
        },
    }
}

/// The update request asks for every pending update when none was seen yet, and
/// otherwise for those after the last one seen: its offset, written after
/// `getUpdates?offset=`, reads back as the last update id plus one.
pub proof fn update_method_asks_after_last_seen(last_update_id: Option<i64>)
    ensures
        last_update_id is None ==> update_method_view(last_update_id) == "getUpdates"@,
        last_update_id matches Some(id) ==> {
            let m = update_method_view(last_update_id);
            &&& m.take(18) == "getUpdates?offset="@
            &&& is_decimal_of(m.skip(18), id + 1)
        },
{
    if let Some(id) = last_update_id {
        reveal_strlit("getUpdates?offset=");
        let m = update_method_view(last_update_id);
        let prefix = "getUpdates?offset="@;
        assert(prefix.len() == 18);
        assert(m.take(18) =~= prefix);
        assert(m.skip(18) =~= decimal(id + 1));
        decimal_reads_back(id + 1);
    }
}

} // verus!
