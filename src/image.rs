//! Page images and the rewriting of their URLs through an image proxy.

use vstd::prelude::*;
use vstd::string::*;
use crate::text::push_str;
use crate::urlencode::{url_encode, url_encoded};

verus! {

/// The image proxy endpoint; the encoded image URL follows it.
pub open spec fn proxy_prefix() -> Seq<char> {
    "https://images2-focus-opensocial.googleusercontent.com/gadgets/proxy?container=focus&gadget=a&no_expand=1&resize_h=0&rewriteMime=image%2F*&url="@
}

/// The URL under which an image is fetched, for the user's choice of image
/// server: through the proxy for server 2, else the URL itself.
pub open spec fn transformed_url(url: Seq<char>, server_selection: Option<i64>) -> Seq<char> {
    if server_selection == Some(2i64) {
        proxy_prefix() + url_encoded(url)
    } else {
        url
    }
}

/// Rewrites an image URL for the user's choice of image server
/// (`None` where the user made none).
pub fn page_url_transformer(url: &str, server_selection: Option<i64>) -> (r: String)
    ensures
        r@ == transformed_url(url@, server_selection),
{
    match server_selection {
        Some(2) => {
            let mut r = String::from_str(
                "https://images2-focus-opensocial.googleusercontent.com/gadgets/proxy?container=focus&gadget=a&no_expand=1&resize_h=0&rewriteMime=image%2F*&url=",
            );
            let encoded = url_encode(url);
            push_str(&mut r, encoded.as_str());
            r
        },
        _ => String::from_str(url),
    }
}

/// One page of a chapter: its position and the URL of its image.
#[derive(Clone, Debug)]
pub struct Page {
    pub index: usize,
    pub url: String,
}

/// The pages of a chapter from the image URLs of its page, in document
/// order, each URL rewritten for the user's choice of image server.
pub fn get_page_list(urls: &Vec<String>, server_selection: Option<i64>) -> (r: Vec<Page>)
    ensures
        r@.len() == urls@.len(),
        forall|k: int|
            0 <= k < r@.len() ==> (#[trigger] r@[k]).index == k && r@[k].url@ == transformed_url(
                urls@[k]@,
                server_selection,
            ),
{
    let mut r: Vec<Page> = Vec::new();
    let mut k: usize = 0;
    while k < urls.len()
        invariant
            k <= urls@.len(),
            r@.len() == k,
            forall|j: int|
                0 <= j < k ==> (#[trigger] r@[j]).index == j && r@[j].url@ == transformed_url(
                    urls@[j]@,
                    server_selection,
                ),
        decreases urls@.len() - k,
    {
        let url = page_url_transformer(urls[k].as_str(), server_selection);
        r.push(Page { index: k, url });
        k = k + 1;
    }
    r
}

} // verus!
