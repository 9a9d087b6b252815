//! Choosing an image from the provider's response: the first entry whose
//! date key equals today's, else the first entry of the list.

use vstd::prelude::*;
use crate::wallpaper_response::Image;

verus! {

/// The URL of the first entry of `images` whose date key is `date`, or
/// `None` when no entry matches.
pub open spec fn select_for_date(images: Seq<Image>, date: Seq<char>) -> Option<Seq<char>>
    decreases images.len(),
{
    if images.len() == 0 {
        None
    } else if images[0].startdate@ == date {
        Some(images[0].url@)
    } else {
        select_for_date(images.drop_first(), date)
    }
}

/// Scans `images` in order and returns the URL of the first entry whose
/// date key equals `date`.
pub fn get_wallpaper_for_date(date: &String, images: &Vec<Image>) -> (r: Option<String>)
    ensures
        r is Some <==> select_for_date(images@, date@) is Some,
        r matches Some(u) ==> select_for_date(images@, date@) == Some(u@),
{
    let mut i: usize = 0;
    proof {
        assert(images@.skip(0) =~= images@);
    }
    while i < images.len()
        invariant
            0 <= i <= images@.len(),
            select_for_date(images@, date@) == select_for_date(images@.skip(i as int), date@),
        decreases images@.len() - i,
    {
        proof {
            assert(images@.skip(i as int)[0] == images@[i as int]);
        }
        if images[i].startdate == *date {
            return Some(images[i].url.clone());
        }
        proof {
            assert(images@.skip(i as int).drop_first() =~= images@.skip(i as int + 1));
        }
        i += 1;
    }
    None
}

/// The newest entry of `images`: its date key and its URL. The provider
/// returns entries newest first, so this is the fallback when no entry
/// matches today.
pub fn get_wallpaper_latest(images: &Vec<Image>) -> (r: Option<(String, String)>)
    ensures
        r is Some <==> images@.len() > 0,
        r matches Some(p) ==> p.0@ == images@[0].startdate@ && p.1@ == images@[0].url@,
{
    if images.len() > 0 {
        Some((images[0].startdate.clone(), images[0].url.clone()))
    } else {
        None
    }
}

} // verus!
