//! The decisions of the sequential download loop. The caller performs each
//! action (a fetch and a write, or a sleep) and reports whether the next
//! destination file already exists.

use vstd::prelude::*;
use vstd::string::StringExecFns;
use crate::links::{dedup, dedup_distinct_same_elements, dedup_links, texts_view};
use crate::text::{decimal, decimal_of};

verus! {

/// The name of the image file with 1-based number `number` of the run `name`.
pub open spec fn file_name_of(name: Seq<char>, number: nat) -> Seq<char> {
    name + "-"@ + decimal_of(number) + ".webp"@
}

/// Names the image file with 1-based number `number` of the run `name`:
/// `<name>-<number>.webp`.
pub fn image_file_name(name: &str, number: u64) -> (r: String)
    ensures
        r@ == file_name_of(name@, number as nat),
{
    let mut r = String::from_str(name);
    r.append("-");
    let digits = decimal(number);
    r.append(digits.as_str());
    r.append(".webp");
    r
}

/// What the caller does next.
#[derive(Clone, Debug, PartialEq, Eq)]
pub enum Action {
    /// Fetch `url` and write its bytes to `file_name` in the images directory.
    Download { url: String, file_name: String },
    /// `file_name` already exists: leave it untouched.
    Skip { file_name: String },
    /// Wait `secs` seconds before the next link.
    Sleep { secs: u64 },
    /// Every link has been visited.
    Finished,
}

/// The state of a loop, as mathematical values.
pub struct DownloadLoopView {
    /// The distinct links, in the order they are visited.
    pub links: Seq<Seq<char>>,
    /// The run's name, the prefix of every image file.
    pub name: Seq<char>,
    /// The pause between two consecutive links, in seconds.
    pub delay_secs: u64,
    /// How many links have been visited.
    pub next: nat,
    /// Whether a pause comes before the next link.
    pub sleep_due: bool,
    /// How many pauses have been handed out.
    pub sleeps: nat,
}

/// Visits each distinct link once, left to right, with a pause between two
/// consecutive links and none after the last.
pub struct DownloadLoop {
    links: Vec<String>,
    name: String,
    delay_secs: u64,
    next: usize,
    sleep_due: bool,
    sleeps: usize,
}

impl DownloadLoop {
    pub closed spec fn view(&self) -> DownloadLoopView {
        DownloadLoopView {
            links: texts_view(self.links@),
            name: self.name@,
            delay_secs: self.delay_secs,
            next: self.next as nat,
            sleep_due: self.sleep_due,
            sleeps: self.sleeps as nat,
        }
    }

    /// The links are distinct; the position stays within them; a pause is
    /// due only between two links; a pause was handed out, or is due, after
    /// each link visited but the last.
    pub closed spec fn wf(&self) -> bool {
        let v = self.view();
        &&& v.links.no_duplicates()
        &&& v.next <= v.links.len()
        &&& v.sleep_due ==> 0 < v.next < v.links.len()
        &&& v.next == 0 ==> v.sleeps == 0
        &&& v.next > 0 ==> v.sleeps + (if v.sleep_due { 1nat } else { 0nat }) + (if v.next
            == v.links.len() { 1nat } else { 0nat }) == v.next
    }

    /// A loop over the distinct `links` in order of first appearance; over no
    /// link at all when `skip_images` is set.
    pub fn new(links: &Vec<String>, name: &str, delay_secs: u64, skip_images: bool) -> (r: Self)
        ensures
            r.wf(),
            r@.links == (if skip_images { Seq::empty() } else { dedup(texts_view(links@)) }),
            r@.name == name@,
            r@.delay_secs == delay_secs,
            r@.next == 0,
            !r@.sleep_due,
            r@.sleeps == 0,
    {
        let unique = if skip_images {
            Vec::new()
        } else {
            dedup_links(links)
        };
        proof {
            dedup_distinct_same_elements(texts_view(links@));
            if skip_images {
                assert(texts_view(unique@) =~= Seq::<Seq<char>>::empty());
            }
        }
        DownloadLoop {
            links: unique,
            name: String::from_str(name),
            delay_secs,
            next: 0,
            sleep_due: false,
            sleeps: 0,
        }
    }

    /// The name of the file that the next link goes to, where a link is next
    /// and no pause comes first.
    pub fn pending_file_name(&self) -> (r: Option<String>)
        requires
            self.wf(),
        ensures
            r is Some <==> (!self@.sleep_due && self@.next < self@.links.len()),
            r matches Some(f) ==> f@ == file_name_of(self@.name, self@.next + 1),
    {
        if !self.sleep_due && self.next < self.links.len() {
            Some(image_file_name(self.name.as_str(), self.next as u64 + 1))
        } else {
            None
        }
    }

    /// How many pauses have been handed out.
    pub fn sleeps_taken(&self) -> (r: usize)
        ensures
            r == self@.sleeps,
    {
        self.sleeps
    }

    /// Decides the next action. `dest_exists` tells whether the file that
    /// `pending_file_name` gave exists; it is ignored when no link is next.
    pub fn step(&mut self, dest_exists: bool) -> (r: Action)
        requires
            old(self).wf(),
        ensures
            final(self).wf(),
            final(self)@.next <= final(self)@.links.len(),
            final(self)@.sleep_due ==> final(self)@.next < final(self)@.links.len(),
            dest_exists ==> !(r is Download),
            final(self)@.links == old(self)@.links,
            final(self)@.name == old(self)@.name,
            final(self)@.delay_secs == old(self)@.delay_secs,
            old(self)@.sleep_due ==> {
                &&& r == (Action::Sleep { secs: old(self)@.delay_secs })
                &&& final(self)@.next == old(self)@.next
                &&& !final(self)@.sleep_due
                &&& final(self)@.sleeps == old(self)@.sleeps + 1
            },
            !old(self)@.sleep_due && old(self)@.next == old(self)@.links.len() ==> {
                &&& r is Finished
                &&& final(self)@ == old(self)@
            },
            !old(self)@.sleep_due && old(self)@.next < old(self)@.links.len() ==> {
                &&& dest_exists ==> (r matches Action::Skip { file_name }
                    && file_name@ == file_name_of(old(self)@.name, old(self)@.next + 1))
                &&& !dest_exists ==> (r matches Action::Download { url, file_name }
                    && url@ == old(self)@.links[old(self)@.next as int]
                    && file_name@ == file_name_of(old(self)@.name, old(self)@.next + 1))
                &&& final(self)@.next == old(self)@.next + 1
                &&& final(self)@.sleep_due == (old(self)@.next + 1 < old(self)@.links.len())
                &&& final(self)@.sleeps == old(self)@.sleeps
            },
    {
        if self.sleep_due {
            self.sleep_due = false;
            self.sleeps = self.sleeps + 1;
            return Action::Sleep { secs: self.delay_secs };
        }
        if self.next == self.links.len() {
            return Action::Finished;
        }
        let i = self.next;
        let file_name = image_file_name(self.name.as_str(), i as u64 + 1);
        let action = if dest_exists {
            Action::Skip { file_name }
        } else {
            Action::Download { url: self.links[i].clone(), file_name }
        };
        self.next = i + 1;
        self.sleep_due = i + 1 < self.links.len();
        action
    }
}

/// A well-formed loop has visited at most all of its links, and a pause is
/// due only while a link remains.
pub proof fn loop_position_in_range(l: &DownloadLoop)
    requires
        l.wf(),
    ensures
        l@.next <= l@.links.len(),
        l@.sleep_due ==> l@.next < l@.links.len(),
{
}

/// Once a loop over `K` links has visited them all, it has handed out
/// exactly `K - 1` pauses of the loop's delay (none for no link), one between
/// each two consecutive links and none after the last.
pub proof fn pauses_between_links(l: &DownloadLoop)
    requires
        l.wf(),
        l@.next == l@.links.len(),
    ensures
        !l@.sleep_due,
        l@.links.len() > 0 ==> l@.sleeps == l@.links.len() - 1,
        l@.links.len() == 0 ==> l@.sleeps == 0,
{
}

/// A loop built with `skip_images` set has no link to visit: its first step
/// is `Finished`, so no image file is fetched or written.
pub proof fn skipped_images_finish_at_once(l: &DownloadLoop)
    requires
        l.wf(),
        l@.next == 0,
        l@.links == Seq::<Seq<char>>::empty(),
    ensures
        !l@.sleep_due,
        l@.next == l@.links.len(),
{
}

} // verus!
