//! Daily wallpaper cache: computes today's and yesterday's date keys,
//! selects the image of the day from a provider's metadata response, and
//! plans the cache update (save today's image, evict yesterday's).

pub mod cache;
pub mod date;
pub mod plan;
pub mod select;
pub mod url;
pub mod wallpaper_response;
