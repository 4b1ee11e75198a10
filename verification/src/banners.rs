//! Home-page banners.
use vstd::prelude::*;
use crate::error::{AppError, is_bad_request, bad_request};
use crate::models::{Banner, BannerInput};
use crate::text::{trim, trim_seq};

verus! {

/// A schedule bound as stored: absent where the input gave none or an empty one.
pub open spec fn schedule_bound(v: Option<String>) -> Option<Seq<char>> {
    match v {
        Some(s) => if s@.len() == 0 {
            None
        } else {
            Some(s@)
        },
        None => None,
    }
}

fn non_empty(v: Option<String>) -> (r: Option<String>)
    ensures
        match r {
            Some(s) => schedule_bound(v) == Some(s@),
            None => schedule_bound(v) is None,
        },
{
    match v {
        Some(s) => if s.as_str().is_empty() {
            None
        } else {
            Some(s)
        },
        None => None,
    }
}

/// `build_banner`: a banner needs an image; its texts are trimmed, its order
/// is at least zero and empty schedule bounds are dropped.
pub fn build_banner(id: String, input: BannerInput) -> (r: Result<Banner, AppError>)
    ensures
        trim_seq(input.image_url@).len() == 0 ==> (r matches Err(e) && is_bad_request(
            e,
            "banner image url is required"@,
        )),
        trim_seq(input.image_url@).len() > 0 ==> (r matches Ok(b) && {
            &&& b.id == id
            &&& b.image_url@ == trim_seq(input.image_url@)
            &&& b.link_url@ == trim_seq(input.link_url@)
            &&& b.title@ == trim_seq(input.title@)
            &&& b.subtitle@ == trim_seq(input.subtitle@)
            &&& b.sort_order == (if input.sort_order > 0 {
                input.sort_order
            } else {
                0
            })
            &&& b.active == input.active
            &&& (match b.start_at {
                Some(s) => schedule_bound(input.start_at) == Some(s@),
                None => schedule_bound(input.start_at) is None,
            })
            &&& (match b.end_at {
                Some(s) => schedule_bound(input.end_at) == Some(s@),
                None => schedule_bound(input.end_at) is None,
            })
        }),
{
    let image_url = trim(input.image_url.as_str());
    if image_url.as_str().is_empty() {
        return Err(bad_request("banner image url is required"));
    }
    Ok(
        Banner {
            id,
            image_url,
            link_url: trim(input.link_url.as_str()),
            title: trim(input.title.as_str()),
            subtitle: trim(input.subtitle.as_str()),
            sort_order: if input.sort_order > 0 {
                input.sort_order
            } else {
                0
            },
            active: input.active,
            start_at: non_empty(input.start_at),
            end_at: non_empty(input.end_at),
        },
    )
}

} // verus!
