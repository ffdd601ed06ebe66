use vstd::prelude::*;

use crate::delegate::DelegateCenter;
use crate::notification::{copy_text, opt_text, Notification, NotificationView};

verus! {

/// What the notification center reports of one delivered notification.
pub struct DeliveredRecord {
    pub identifier: Option<String>,
    pub title: Option<String>,
    pub subtitle: Option<String>,
    pub sound: Option<String>,
    pub reply: bool,
}

/// The notification that a delivered record reads back as: the image and the
/// delivery time are never reported, so they are absent.
pub open spec fn read_back(rec: DeliveredRecord, identifier: Seq<char>) -> NotificationView {
    NotificationView {
        identifier,
        title: opt_text(rec.title),
        subtitle: opt_text(rec.subtitle),
        image: None,
        sound: opt_text(rec.sound),
        delivery_date: None,
        reply: rec.reply,
    }
}

/// Whether a delivered record carries the identifier `id`.
pub open spec fn is_target(rec: DeliveredRecord, id: Seq<char>) -> bool {
    opt_text(rec.identifier) == Some(id)
}

/// The positions, in increasing order, of the records that carry `id`.
pub open spec fn targets(recs: Seq<DeliveredRecord>, id: Seq<char>) -> Seq<usize>
    decreases recs.len(),
{
    if recs.len() == 0 {
        seq![]
    } else {
        let before = targets(recs.drop_last(), id);
        if is_target(recs.last(), id) {
            before.push((recs.len() - 1) as usize)
        } else {
            before
        }
    }
}

/// The records that stay once those carrying `id` are removed, in order.
pub open spec fn remaining(recs: Seq<DeliveredRecord>, id: Seq<char>) -> Seq<DeliveredRecord>
    decreases recs.len(),
{
    if recs.len() == 0 {
        seq![]
    } else {
        let before = remaining(recs.drop_last(), id);
        if is_target(recs.last(), id) {
            before
        } else {
            before.push(recs.last())
        }
    }
}

/// Reads back the listing of delivered notifications, one for each record, in
/// the order the center reports them.
pub fn notifications_from_delivered(delivered: &Vec<DeliveredRecord>) -> (r: Vec<Notification>)
    requires
        forall|i: int| 0 <= i < delivered@.len() ==> (#[trigger] delivered@[i]).identifier is Some,
    ensures
        r@.len() == delivered@.len(),
        forall|i: int|
            0 <= i < r@.len() ==> (#[trigger] r@[i])@ == read_back(
                delivered@[i],
                delivered@[i].identifier->0@,
            ),
{
    let mut r: Vec<Notification> = Vec::new();
    let mut i: usize = 0;
    while i < delivered.len()
        invariant
            i <= delivered@.len(),
            r@.len() == i,
            forall|k: int| 0 <= k < delivered@.len() ==> (#[trigger] delivered@[k]).identifier is Some,
            forall|k: int|
                0 <= k < i ==> (#[trigger] r@[k])@ == read_back(
                    delivered@[k],
                    delivered@[k].identifier->0@,
                ),
        decreases delivered@.len() - i,
    {
        let rec = &delivered[i];
        let identifier = match &rec.identifier {
            Some(id) => id.clone(),
            None => String::new(),
        };
        let n = Notification::from_delivered(
            identifier,
            copy_text(&rec.title),
            copy_text(&rec.subtitle),
            copy_text(&rec.sound),
            rec.reply,
        );
        r.push(n);
        i = i + 1;
    }
    r
}

/// The positions of the delivered notifications that deleting `identifier`
/// removes: every record that carries it, in increasing order.
pub fn delete_targets(delivered: &Vec<DeliveredRecord>, identifier: &str) -> (r: Vec<usize>)
    ensures
        r@ == targets(delivered@, identifier@),
{
    let target = identifier.to_string();
    let mut r: Vec<usize> = Vec::new();
    let mut i: usize = 0;
    while i < delivered.len()
        invariant
            i <= delivered@.len(),
            target@ == identifier@,
            r@ == targets(delivered@.subrange(0, i as int), identifier@),
        decreases delivered@.len() - i,
    {
        let ghost prefix = delivered@.subrange(0, i as int + 1);
        assert(prefix.drop_last() =~= delivered@.subrange(0, i as int));
        let hit = match &delivered[i].identifier {
            Some(id) => *id == target,
            None => false,
        };
        if hit {
            r.push(i);
        }
        i = i + 1;
    }
    assert(delivered@.subrange(0, delivered@.len() as int) =~= delivered@);
    r
}


/// Deleting an identifier that no delivered notification carries is a no-op:
/// no position is selected and the listing stays as it was, length included.
pub proof fn lemma_delete_absent_is_noop(recs: Seq<DeliveredRecord>, id: Seq<char>)
    requires
        forall|i: int| 0 <= i < recs.len() ==> !is_target(#[trigger] recs[i], id),
    ensures
        targets(recs, id).len() == 0,
        remaining(recs, id) == recs,
    decreases recs.len(),
{
    if recs.len() > 0 {
        let prefix = recs.drop_last();
        assert forall|i: int| 0 <= i < prefix.len() implies !is_target(#[trigger] prefix[i], id) by {
            assert(prefix[i] == recs[i]);
        }
        lemma_delete_absent_is_noop(prefix, id);
        assert(!is_target(recs[recs.len() - 1], id));
        assert(prefix.push(recs.last()) =~= recs);
    }
}

/// Deleting an identifier selects exactly the notifications that carry it:
/// every selected position holds one, none that remains does, and together
/// the selected and the remaining ones account for the whole listing.
pub proof fn lemma_deleted_identifier_is_gone(recs: Seq<DeliveredRecord>, id: Seq<char>)
    requires
        recs.len() <= usize::MAX,
    ensures
        forall|k: int|
            0 <= k < targets(recs, id).len() ==> {
                &&& (#[trigger] targets(recs, id)[k]) < recs.len()
                &&& is_target(recs[targets(recs, id)[k] as int], id)
            },
        forall|k: int|
            0 <= k < remaining(recs, id).len() ==> !is_target(
                #[trigger] remaining(recs, id)[k],
                id,
            ),
        targets(recs, id).len() + remaining(recs, id).len() == recs.len(),
    decreases recs.len(),
{
    if recs.len() > 0 {
        let prefix = recs.drop_last();
        lemma_deleted_identifier_is_gone(prefix, id);
        let t = targets(prefix, id);
        let all = targets(recs, id);
        assert forall|k: int| 0 <= k < all.len() implies {
            &&& (#[trigger] all[k]) < recs.len()
            &&& is_target(recs[all[k] as int], id)
        } by {
            if k < t.len() {
                assert(all[k] == t[k]);
                assert(recs[t[k] as int] == prefix[t[k] as int]);
            } else {
                assert(all[k] == (recs.len() - 1) as usize);
            }
        }
    }
}

/// A notification provider: the application name it announces itself with,
/// and the delegate it created, if any.
pub struct NotificationProvider {
    app_name: String,
    delegate: Option<u64>,
}

/// What a provider is, as values.
pub struct ProviderView {
    pub app_name: Seq<char>,
    pub delegate: Option<u64>,
}

impl View for NotificationProvider {
    type V = ProviderView;

    closed spec fn view(&self) -> ProviderView {
        ProviderView { app_name: self.app_name@, delegate: self.delegate }
    }
}

impl NotificationProvider {
    /// A provider for the application named `app_name`, with no delegate yet.
    pub fn new(app_name: &str) -> (r: Self)
        ensures
            r@.app_name == app_name@,
            r@.delegate is None,
    {
        NotificationProvider { app_name: app_name.to_string(), delegate: None }
    }

    /// The application name.
    pub fn app_name(&self) -> (r: &str)
        ensures
            r@ == self@.app_name,
    {
        self.app_name.as_str()
    }

    /// The delegate this provider created last, if any.
    pub fn delegate(&self) -> (r: Option<u64>)
        ensures
            r == self@.delegate,
    {
        self.delegate
    }

    /// Installs a new delegate bound to `callback` as the center's only one,
    /// superseding any earlier delegate, and records it as this provider's.
    pub fn set_callback<C>(&mut self, center: &mut DelegateCenter<C>, callback: C)
        requires
            old(center)@.can_register(),
        ensures
            final(center)@ == old(center)@.registered(callback),
            final(self)@ == (ProviderView {
                delegate: Some(old(center)@.issued),
                ..old(self)@
            }),
    {
        let d = center.register(callback);
        self.delegate = Some(d);
    }

    /// Tears the provider down: clears the center's delegate if and only if
    /// the installed one is the delegate this provider created.
    pub fn teardown<C>(&self, center: &mut DelegateCenter<C>)
        ensures
            final(center)@ == old(center)@.torn_down(self@.delegate),
    {
        center.teardown(self.delegate);
    }
}

} // verus!
