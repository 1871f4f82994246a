//! What the browser tells about the device the client runs on.
use vstd::prelude::*;
use crate::text::{contains, has_infix};
use crate::world::{lowered, to_lowercase_text};

verus! {

/// Whether a lowercased user agent names a mobile device.
pub open spec fn mobile_user_agent(ua: Seq<char>) -> bool {
    ||| has_infix(ua, "mobile"@)
    ||| has_infix(ua, "android"@)
    ||| has_infix(ua, "iphone"@)
    ||| has_infix(ua, "ipad"@)
    ||| has_infix(ua, "ipod"@)
    ||| has_infix(ua, "blackberry"@)
    ||| has_infix(ua, "webos"@)
}

/// Whether the client runs on a mobile device: its user agent, in any letter
/// case, names one, or the page has touch events. Without a browser window
/// there is neither, and the answer is no.
pub fn is_mobile_device(user_agent: Option<&str>, has_touch: bool) -> (b: bool)
    ensures
        b == ((user_agent matches Some(ua) && mobile_user_agent(lowered(ua@))) || has_touch),
{
    let named = match user_agent {
        Some(ua) => {
            let lower = to_lowercase_text(ua);
            let l = lower.as_str();
            contains(l, "mobile") || contains(l, "android") || contains(l, "iphone") || contains(
                l,
                "ipad",
            ) || contains(l, "ipod") || contains(l, "blackberry") || contains(l, "webos")
        },
        None => false,
    };
    named || has_touch
}

} // verus!
