//! What the operator sees of a run: which posts are worked on, how a post is shown,
//! the export of a listing, and the tally of a batch.
use crate::envelope::{items_view, ItemView, WeiboInfo};
use crate::error::ClientError;
use crate::text::{decimal, decimal_string};
use vstd::prelude::*;
use vstd::string::*;

verus! {

/// The items to work on: those after the first `skip`, and of these the first
/// `limit` where a limit is given.
pub open spec fn selection<T>(items: Seq<T>, skip: nat, limit: Option<usize>) -> Seq<T> {
    let rest = if skip <= items.len() {
        items.skip(skip as int)
    } else {
        Seq::empty()
    };
    match limit {
        Some(n) => if n < rest.len() {
            rest.take(n as int)
        } else {
            rest
        },
        None => rest,
    }
}

/// What is shown of a post's text: its first `width` characters, or a placeholder
/// where it has none.
pub open spec fn preview_of(text: Option<Seq<char>>, width: nat) -> Seq<char> {
    match text {
        Some(t) => if t.len() <= width {
            t
        } else {
            t.take(width as int)
        },
        None => "无内容"@,
    }
}

/// The line that shows the post with number `number`.
pub open spec fn summary_of(number: nat, item: ItemView, width: nat) -> Seq<char> {
    decimal(number) + ". ID: "@ + item.id + " - "@ + preview_of(item.text, width) + "..."@
}

/// The record of the post with number `number` in an export: the identifier, then the
/// text and the time of creation where the post has them, then an empty line.
pub open spec fn record_of(number: nat, item: ItemView) -> Seq<char> {
    decimal(number) + ". ID: "@ + item.id + "\n"@ + (match item.text {
        Some(t) => "   内容: "@ + t + "\n"@,
        None => Seq::empty(),
    }) + (match item.created_at {
        Some(t) => "   时间: "@ + t + "\n"@,
        None => Seq::empty(),
    }) + "\n"@
}

/// The export of a listing: the records of its posts in order, numbered from one.
pub open spec fn export_of(items: Seq<ItemView>) -> Seq<char>
    decreases items.len(),
{
    if items.len() == 0 {
        Seq::empty()
    } else {
        export_of(items.drop_last()) + record_of(items.len(), items.last())
    }
}

/// Picks the items to work on.
pub fn select(items: Vec<WeiboInfo>, skip: usize, limit: Option<usize>) -> (r: Vec<WeiboInfo>)
    ensures
        r@ == selection(items@, skip as nat, limit),
{
    let mut items = items;
    let mut rest = if skip <= items.len() {
        items.split_off(skip)
    } else {
        Vec::new()
    };
    match limit {
        Some(n) => {
            rest.truncate(n);
        },
        None => {},
    }
    rest
}

/// Shows a post's text.
pub fn preview(text: &Option<String>, width: usize) -> (r: String)
    ensures
        r@ == preview_of(crate::envelope::text_view(*text), width as nat),
{
    match text {
        Some(t) => {
            let length = t.as_str().unicode_len();
            if length <= width {
                t.clone()
            } else {
                t.as_str().substring_char(0, width).to_owned()
            }
        },
        None => "无内容".to_owned(),
    }
}

/// Shows the post with number `number` in one line.
pub fn summary_line(number: usize, item: &WeiboInfo, width: usize) -> (r: String)
    ensures
        r@ == summary_of(number as nat, item@, width as nat),
{
    let mut r = decimal_string(number as u64);
    r.append(". ID: ");
    r.append(item.id.as_str());
    r.append(" - ");
    let shown = preview(&item.text, width);
    r.append(shown.as_str());
    r.append("...");
    r
}

/// Writes the record of the post with number `number`.
pub fn export_record(number: usize, item: &WeiboInfo) -> (r: String)
    ensures
        r@ == record_of(number as nat, item@),
{
    let mut r = decimal_string(number as u64);
    r.append(". ID: ");
    r.append(item.id.as_str());
    r.append("\n");
    let ghost head = r@;
    match &item.text {
        Some(t) => {
            r.append("   内容: ");
            r.append(t.as_str());
            r.append("\n");
            assert(r@ =~= head + ("   内容: "@ + t@ + "\n"@));
        },
        None => {
            assert(r@ =~= head + Seq::<char>::empty());
        },
    }
    let ghost middle = r@;
    match &item.created_at {
        Some(t) => {
            r.append("   时间: ");
            r.append(t.as_str());
            r.append("\n");
            assert(r@ =~= middle + ("   时间: "@ + t@ + "\n"@));
        },
        None => {
            assert(r@ =~= middle + Seq::<char>::empty());
        },
    }
    r.append("\n");
    r
}

/// Writes the export of a listing.
pub fn export(items: &Vec<WeiboInfo>) -> (r: String)
    ensures
        r@ == export_of(items_view(items@)),
{
    let mut r = String::new();
    let mut i: usize = 0;
    let ghost all = items_view(items@);
    while i < items.len()
        invariant
            i <= items.len(),
            all == items_view(items@),
            r@ == export_of(all.take(i as int)),
        decreases items.len() - i,
    {
        let record = export_record(i + 1, &items[i]);
        r.append(record.as_str());
        proof {
            let next = all.take(i + 1);
            assert(next.drop_last() =~= all.take(i as int));
            assert(next.last() == items@[i as int]@);
        }
        i += 1;
    }
    assert(all.take(i as int) =~= all);
    r
}

/// The outcome of a batch: the posts that were set, and those that were not, each
/// with the reason.
#[derive(Debug)]
pub struct Tally {
    pub succeeded: Vec<String>,
    pub failed: Vec<(String, String)>,
}

impl Tally {
    /// The tally of a batch in which nothing has been tried.
    pub fn new() -> (r: Tally)
        ensures
            r.succeeded@.len() == 0,
            r.failed@.len() == 0,
    {
        Tally { succeeded: Vec::new(), failed: Vec::new() }
    }

    /// Records how the mutation of the post `id` ended. A failure is kept with its
    /// message and does not stop the batch.
    pub fn record(&mut self, id: &str, result: &Result<(), ClientError>)
        ensures
            match *result {
                Ok(_) => {
                    &&& final(self).succeeded@.len() == old(self).succeeded@.len() + 1
                    &&& final(self).succeeded@.last()@ == id@
                    &&& final(self).succeeded@.drop_last() == old(self).succeeded@
                    &&& final(self).failed@ == old(self).failed@
                },
                Err(error) => {
                    &&& final(self).failed@.len() == old(self).failed@.len() + 1
                    &&& final(self).failed@.last().0@ == id@
                    &&& final(self).failed@.last().1@ == error@.text()
                    &&& final(self).failed@.drop_last() == old(self).failed@
                    &&& final(self).succeeded@ == old(self).succeeded@
                },
            },
    {
        match result {
            Ok(_) => {
                self.succeeded.push(id.to_owned());
                assert(self.succeeded@.drop_last() =~= old(self).succeeded@);
            },
            Err(error) => {
                self.failed.push((id.to_owned(), error.message()));
                assert(self.failed@.drop_last() =~= old(self).failed@);
            },
        }
    }
}

} // verus!
