//! The feed builder: a pure transformation from one show record and its
//! season records into an ordered syndication feed document.
//!
//! Seasons without a premiere date are dropped; the remaining seasons are
//! turned into feed items in their original order.

use vstd::prelude::*;

use crate::numeral::dec_str;
use crate::numeral::u32_to_string;

verus! {

/// Show metadata, as delivered by the upstream catalog.
pub struct Show {
    pub id: u32,
    pub name: String,
}

/// One season of a show, as delivered by the upstream catalog.
/// `premiere_date` is absent for seasons that have not aired.
pub struct Season {
    pub id: u32,
    pub number: u32,
    pub url: String,
    pub premiere_date: Option<String>,
}

/// One entry of the built feed.
pub struct Item {
    pub id: String,
    pub title: String,
    pub url: String,
    pub date_published: String,
}

/// The feed document. `icon` and `version` are fixed; `title` is the show
/// name; `items` holds one entry per season with a premiere date, in the
/// seasons' order.
pub struct Feed {
    pub icon: String,
    pub version: String,
    pub title: String,
    pub items: Vec<Item>,
}

/// The mathematical shape of one feed item: each field as its character
/// sequence.
pub ghost struct ItemModel {
    pub id: Seq<char>,
    pub title: Seq<char>,
    pub url: Seq<char>,
    pub date_published: Seq<char>,
}

/// Whether a season qualifies for the feed.
pub open spec fn has_premiere(s: Season) -> bool {
    s.premiere_date is Some
}

/// The item a qualifying season is turned into: decimal season id, a
/// `"<show> - Saison <n>"` title, the season URL verbatim, and the premiere
/// date with a fixed midnight/UTC-offset suffix.
pub open spec fn item_model(show_name: Seq<char>, s: Season) -> ItemModel {
    ItemModel {
        id: dec_str(s.id as nat),
        title: show_name + " - Saison "@ + dec_str(s.number as nat),
        url: s.url@,
        date_published: s.premiere_date.unwrap()@ + "T00:00:00-00:00"@,
    }
}

/// The items built from `seasons`: the qualifying seasons, in order, each
/// mapped through `item_model`.
pub open spec fn feed_items(show_name: Seq<char>, seasons: Seq<Season>) -> Seq<ItemModel>
    decreases seasons.len(),
{
    if seasons.len() == 0 {
        Seq::empty()
    } else {
        let rest = feed_items(show_name, seasons.drop_last());
        if has_premiere(seasons.last()) {
            rest.push(item_model(show_name, seasons.last()))
        } else {
            rest
        }
    }
}

/// The model of a built item.
pub open spec fn item_view(it: Item) -> ItemModel {
    ItemModel { id: it.id@, title: it.title@, url: it.url@, date_published: it.date_published@ }
}

impl Feed {
    /// Builds the feed for `show` from `seasons`.
    pub fn from(show: Show, seasons: &[Season]) -> (r: Feed)
        ensures
            r.icon@ == "https://static.tvmaze.com/images/favico/favicon.ico"@,
            r.version@ == "https://jsonfeed.org/version/1.1"@,
            r.title@ == show.name@,
            r.items@.map_values(|it: Item| item_view(it)) == feed_items(show.name@, seasons@),
    {
        let ghost name: Seq<char> = show.name@;
        let mut items: Vec<Item> = Vec::new();
        let mut i: usize = 0;
        while i < seasons.len()
            invariant
                i <= seasons.len(),
                name == show.name@,
                items@.map_values(|it: Item| item_view(it)) == feed_items(
                    name,
                    seasons@.take(i as int),
                ),
            decreases seasons.len() - i,
        {
            let s = &seasons[i];
            match &s.premiere_date {
                Some(date) => {
                    let number = u32_to_string(s.number);
                    let item = Item {
                        id: u32_to_string(s.id),
                        title: show.name.clone().concat(" - Saison ").concat(number.as_str()),
                        url: s.url.clone(),
                        date_published: date.clone().concat("T00:00:00-00:00"),
                    };
                    proof {
                        assert(item_view(item).title =~= item_model(name, seasons@[i as int]).title);
                        assert(item_view(item) == item_model(name, seasons@[i as int]));
                    }
                    items.push(item);
                },
                None => {},
            }
            proof {
                assert(seasons@.take(i + 1 as int).drop_last() =~= seasons@.take(i as int));
                assert(seasons@.take(i + 1 as int).last() == seasons@[i as int]);
                assert(items@.map_values(|it: Item| item_view(it)) =~= feed_items(
                    name,
                    seasons@.take(i + 1 as int),
                ));
            }
            i = i + 1;
        }
        proof {
            assert(seasons@.take(seasons@.len() as int) =~= seasons@);
        }
        Feed {
            icon: "https://static.tvmaze.com/images/favico/favicon.ico".to_owned(),
            version: "https://jsonfeed.org/version/1.1".to_owned(),
            title: show.name,
            items,
        }
    }
}

/// The feed never has more items than there are seasons, and has exactly one
/// item per season with a premiere date.
pub proof fn lemma_feed_items_len(show_name: Seq<char>, seasons: Seq<Season>)
    ensures
        feed_items(show_name, seasons).len() == seasons.filter(|s: Season| has_premiere(s)).len(),
        feed_items(show_name, seasons).len() <= seasons.len(),
    decreases seasons.len(),
{
    reveal(Seq::filter);
    if seasons.len() == 0 {
    } else {
        lemma_feed_items_len(show_name, seasons.drop_last());
    }
}

/// The feed items are exactly the qualifying seasons, kept in their input
/// order, each mapped to its item.
pub proof fn lemma_feed_items_order(show_name: Seq<char>, seasons: Seq<Season>)
    ensures
        feed_items(show_name, seasons) == seasons.filter(|s: Season| has_premiere(s)).map_values(
            |s: Season| item_model(show_name, s),
        ),
    decreases seasons.len(),
{
    reveal(Seq::filter);
    if seasons.len() == 0 {
        assert(feed_items(show_name, seasons) =~= seasons.filter(
            |s: Season| has_premiere(s),
        ).map_values(|s: Season| item_model(show_name, s)));
    } else {
        lemma_feed_items_order(show_name, seasons.drop_last());
        let sub = seasons.drop_last().filter(|s: Season| has_premiere(s));
        if has_premiere(seasons.last()) {
            assert(seasons.filter(|s: Season| has_premiere(s)) == sub.push(seasons.last()));
            assert(sub.push(seasons.last()).map_values(|s: Season| item_model(show_name, s))
                =~= sub.map_values(|s: Season| item_model(show_name, s)).push(
                item_model(show_name, seasons.last()),
            ));
        }
    }
}

} // verus!
