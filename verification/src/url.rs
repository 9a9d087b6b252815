//! The provider's metadata endpoint URL, built from the configured
//! screen width and height.

use vstd::prelude::*;
use crate::date::dec_digits;
use crate::date::push_decimal;

verus! {

/// The characters of the metadata request URL for the given screen size.
pub open spec fn request_url_chars(width: nat, height: nat) -> Seq<char> {
    "https://bingwallpaper.microsoft.com/api/BWC/getHPImages?screenWidth="@ + dec_digits(width)
        + "&screenHeight="@ + dec_digits(height) + "&env=live"@
}

/// Builds the metadata request URL for the given screen size.
pub fn request_url(width: u32, height: u32) -> (r: String)
    ensures
        r@ == request_url_chars(width as nat, height as nat),
{
    let mut s = String::from_str(
        "https://bingwallpaper.microsoft.com/api/BWC/getHPImages?screenWidth=",
    );
    push_decimal(&mut s, width);
    s.append("&screenHeight=");
    push_decimal(&mut s, height);
    s.append("&env=live");
    proof {
        assert(s@ =~= request_url_chars(width as nat, height as nat));
    }
    s
}

} // verus!
