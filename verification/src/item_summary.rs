//! The item record returned by the search API, its mathematical view, and the
//! accessors the watcher relies on: the stable identifier extracted from the
//! composite identifier field, the auction test, the display form of the
//! buying options, and the auction end timestamp.

use vstd::prelude::*;
use vstd::string::StrSliceExecFns;
use vstd::string::StringExecFns;

use crate::text::find_char;
use crate::text::lemma_spec_find;
use crate::text::spec_find;
use crate::text::str_eq;

verus! {

/// The seller of a listing.
#[derive(Debug)]
pub struct ItemSeller {
    pub username: String,
    pub feedback_percentage: String,
    pub feedback_score: u64,
}

/// A "buy it now" style price: an amount (kept as the decimal string the API
/// returned) and a currency code.
#[derive(Debug)]
pub struct ItemPrice {
    pub value: String,
    pub currency: String,
}

/// The current highest bid of an auction-type listing.
#[derive(Debug)]
pub struct ItemBidPrice {
    pub value: String,
    pub currency: String,
}

/// The primary image of a listing.
#[derive(Debug)]
pub struct ItemImage {
    pub image_url: String,
}

/// One listing returned by the search API.
#[derive(Debug)]
pub struct ItemSummary {
    pub item_id: String,
    pub title: String,
    pub item_web_url: String,
    pub price: Option<ItemPrice>,
    pub current_bid_price: Option<ItemBidPrice>,
    pub condition: Option<String>,
    pub buying_options: Vec<String>,
    pub image: Option<ItemImage>,
    pub item_end_date: Option<String>,
    pub seller: ItemSeller,
}

/// The ordered list of listings of one search response.
#[derive(Debug)]
pub struct ItemSummaryResponse {
    pub item_summaries: Vec<ItemSummary>,
}

/// Mathematical view of a price: amount string and currency as character
/// sequences.
pub struct PriceView {
    pub value: Seq<char>,
    pub currency: Seq<char>,
}

/// Mathematical view of a seller.
pub struct SellerView {
    pub username: Seq<char>,
    pub feedback_percentage: Seq<char>,
    pub feedback_score: u64,
}

/// Mathematical view of an image.
pub struct ImageView {
    pub image_url: Seq<char>,
}

/// Mathematical view of a listing.
pub struct ItemView {
    pub item_id: Seq<char>,
    pub title: Seq<char>,
    pub item_web_url: Seq<char>,
    pub price: Option<PriceView>,
    pub current_bid_price: Option<PriceView>,
    pub condition: Option<Seq<char>>,
    pub buying_options: Seq<Seq<char>>,
    pub image: Option<ImageView>,
    pub item_end_date: Option<Seq<char>>,
    pub seller: SellerView,
}

impl View for ItemPrice {
    type V = PriceView;

    open spec fn view(&self) -> PriceView {
        PriceView { value: self.value@, currency: self.currency@ }
    }
}

impl View for ItemBidPrice {
    type V = PriceView;

    open spec fn view(&self) -> PriceView {
        PriceView { value: self.value@, currency: self.currency@ }
    }
}

impl View for ItemImage {
    type V = ImageView;

    open spec fn view(&self) -> ImageView {
        ImageView { image_url: self.image_url@ }
    }
}

impl View for ItemSeller {
    type V = SellerView;

    open spec fn view(&self) -> SellerView {
        SellerView {
            username: self.username@,
            feedback_percentage: self.feedback_percentage@,
            feedback_score: self.feedback_score,
        }
    }
}

impl View for ItemSummary {
    type V = ItemView;

    open spec fn view(&self) -> ItemView {
        ItemView {
            item_id: self.item_id@,
            title: self.title@,
            item_web_url: self.item_web_url@,
            price: match self.price {
                Option::None => Option::None,
                Option::Some(p) => Option::Some(p@),
            },
            current_bid_price: match self.current_bid_price {
                Option::None => Option::None,
                Option::Some(p) => Option::Some(p@),
            },
            condition: match self.condition {
                Option::None => Option::None,
                Option::Some(c) => Option::Some(c@),
            },
            buying_options: Seq::new(
                self.buying_options@.len(),
                |i: int| self.buying_options@[i]@,
            ),
            image: match self.image {
                Option::None => Option::None,
                Option::Some(im) => Option::Some(im@),
            },
            item_end_date: match self.item_end_date {
                Option::None => Option::None,
                Option::Some(d) => Option::Some(d@),
            },
            seller: self.seller@,
        }
    }
}

impl DeepView for ItemSummary {
    type V = ItemView;

    open spec fn deep_view(&self) -> ItemView {
        self.view()
    }
}

/// Clones every string of a vector; the sequence of strings is kept exactly.
fn clone_strings(v: &Vec<String>) -> (r: Vec<String>)
    ensures
        r@ == v@,
{
    let mut r: Vec<String> = Vec::new();
    let mut i: usize = 0;
    while i < v.len()
        invariant
            i <= v.len(),
            r@ == v@.subrange(0, i as int),
        decreases v.len() - i,
    {
        r.push(v[i].clone());
        proof {
            assert(r@ =~= v@.subrange(0, i + 1));
        }
        i = i + 1;
    }
    proof {
        assert(r@ =~= v@);
    }
    r
}

impl Clone for ItemPrice {
    fn clone(&self) -> (res: Self)
        ensures
            res == *self,
    {
        ItemPrice { value: self.value.clone(), currency: self.currency.clone() }
    }
}

impl Clone for ItemBidPrice {
    fn clone(&self) -> (res: Self)
        ensures
            res == *self,
    {
        ItemBidPrice { value: self.value.clone(), currency: self.currency.clone() }
    }
}

impl Clone for ItemImage {
    fn clone(&self) -> (res: Self)
        ensures
            res == *self,
    {
        ItemImage { image_url: self.image_url.clone() }
    }
}

impl Clone for ItemSeller {
    fn clone(&self) -> (res: Self)
        ensures
            res == *self,
    {
        ItemSeller {
            username: self.username.clone(),
            feedback_percentage: self.feedback_percentage.clone(),
            feedback_score: self.feedback_score,
        }
    }
}

impl Clone for ItemSummary {
    fn clone(&self) -> (res: Self)
        ensures
            res@ == self@,
    {
        let res = ItemSummary {
            item_id: self.item_id.clone(),
            title: self.title.clone(),
            item_web_url: self.item_web_url.clone(),
            price: match &self.price {
                Option::None => Option::None,
                Option::Some(p) => Option::Some(p.clone()),
            },
            current_bid_price: match &self.current_bid_price {
                Option::None => Option::None,
                Option::Some(p) => Option::Some(p.clone()),
            },
            condition: match &self.condition {
                Option::None => Option::None,
                Option::Some(c) => Option::Some(c.clone()),
            },
            buying_options: clone_strings(&self.buying_options),
            image: match &self.image {
                Option::None => Option::None,
                Option::Some(im) => Option::Some(im.clone()),
            },
            item_end_date: match &self.item_end_date {
                Option::None => Option::None,
                Option::Some(d) => Option::Some(d.clone()),
            },
            seller: self.seller.clone(),
        };
        proof {
            assert(res@.buying_options =~= self@.buying_options);
        }
        res
    }
}

/// The stable identifier of a listing: the second `|`-separated segment of the
/// composite identifier field, if the field has one.
pub open spec fn derived_id(item_id: Seq<char>) -> Option<Seq<char>> {
    match spec_find(item_id, '|', 0) {
        Option::None => Option::None,
        Option::Some(i) => match spec_find(item_id, '|', i + 1) {
            Option::None => Option::Some(item_id.subrange(i + 1, item_id.len() as int)),
            Option::Some(j) => Option::Some(item_id.subrange(i + 1, j)),
        },
    }
}

/// The display form of one buying option.
pub open spec fn display_option(o: Seq<char>) -> Seq<char> {
    if o == "FIXED_PRICE"@ {
        "BIN"@
    } else if o == "AUCTION"@ {
        "BID"@
    } else if o == "BEST_OFFER"@ {
        "OFFER"@
    } else {
        o
    }
}

/// The display form of a list of buying options.
pub open spec fn display_options(opts: Seq<Seq<char>>) -> Seq<Seq<char>> {
    Seq::new(opts.len(), |i: int| display_option(opts[i]))
}

/// Names what chrono computes for a datetime string: the Unix timestamp of the
/// instant it denotes, or nothing when the string does not parse.
pub uninterp spec fn utc_timestamp_of(s: Seq<char>) -> Option<i64>;

/// Relies on chrono's `str::parse::<DateTime<Utc>>` (RFC 3339 and the relaxed
/// variants it documents) followed by `DateTime::timestamp`; the outcome is a
/// function of the characters of the input alone.
#[verifier::external_body]
fn parse_utc_timestamp(s: &str) -> (r: Option<i64>)
    ensures
        r == utc_timestamp_of(s@),
{
    match s.parse::<chrono::DateTime<chrono::Utc>>() {
        Ok(d) => Some(d.timestamp()),
        Err(_) => None,
    }
}

impl ItemSummary {
    /// Whether the listing is an auction: one of its buying options is
    /// exactly `AUCTION`.
    pub fn is_auction(&self) -> (r: bool)
        ensures
            r == self@.buying_options.contains("AUCTION"@),
    {
        let n = self.buying_options.len();
        let mut i: usize = 0;
        while i < n
            invariant
                n == self.buying_options.len(),
                i <= n,
                forall|j: int| 0 <= j < i ==> self.buying_options@[j]@ != "AUCTION"@,
            decreases n - i,
        {
            if str_eq(self.buying_options[i].as_str(), "AUCTION") {
                proof {
                    assert(self@.buying_options[i as int] == "AUCTION"@);
                }
                return true;
            }
            i = i + 1;
        }
        proof {
            assert(forall|j: int|
                0 <= j < self@.buying_options.len() ==> self@.buying_options[j] != "AUCTION"@);
        }
        false
    }

    /// The auction end as a Unix timestamp: nothing when the listing has no
    /// end date or when the date string does not parse.
    pub fn end_timestamp(&self) -> (r: Option<i64>)
        ensures
            r == (match self.item_end_date {
                Option::None => Option::<i64>::None,
                Option::Some(d) => utc_timestamp_of(d@),
            }),
    {
        match &self.item_end_date {
            None => None,
            Some(d) => parse_utc_timestamp(d.as_str()),
        }
    }

    /// The stable identifier of the listing, extracted from the composite
    /// identifier field; nothing when the field has no second segment.
    pub fn id(&self) -> (r: Option<&str>)
        ensures
            match r {
                Option::None => derived_id(self.item_id@) is None,
                Option::Some(s) => derived_id(self.item_id@) == Option::Some(s@),
            },
    {
        let id_str: &str = self.item_id.as_str();
        let n: usize = id_str.unicode_len();
        match find_char(id_str, '|', 0) {
            None => None,
            Some(i) => {
                proof {
                    lemma_spec_find(id_str@, '|', 0);
                }
                let end: usize = match find_char(id_str, '|', i + 1) {
                    None => n,
                    Some(j) => {
                        proof {
                            lemma_spec_find(id_str@, '|', i + 1);
                        }
                        j
                    },
                };
                Some(id_str.substring_char(i + 1, end))
            },
        }
    }

    /// The buying options in their display form: `FIXED_PRICE`, `AUCTION` and
    /// `BEST_OFFER` become `BIN`, `BID` and `OFFER`; anything else is kept.
    pub fn buying_options(&self) -> (r: Vec<String>)
        ensures
            r.deep_view() == display_options(self@.buying_options),
    {
        let n = self.buying_options.len();
        let mut r: Vec<String> = Vec::new();
        let mut i: usize = 0;
        while i < n
            invariant
                n == self.buying_options.len(),
                i <= n,
                r@.len() == i,
                forall|j: int| 0 <= j < i ==> r@[j]@ == display_option(self@.buying_options[j]),
            decreases n - i,
        {
            let b = &self.buying_options[i];
            let mapped: String = if str_eq(b.as_str(), "FIXED_PRICE") {
                String::from_str("BIN")
            } else if str_eq(b.as_str(), "AUCTION") {
                String::from_str("BID")
            } else if str_eq(b.as_str(), "BEST_OFFER") {
                String::from_str("OFFER")
            } else {
                b.clone()
            };
            proof {
                assert(mapped@ == display_option(self@.buying_options[i as int]));
            }
            r.push(mapped);
            i = i + 1;
        }
        proof {
            assert(r.deep_view() =~= display_options(self@.buying_options));
        }
        r
    }
}

} // verus!
