//! The link index: directed, tagged edges between addresses, kept in the
//! order they were added.
use vstd::prelude::*;
use crate::address::Address;

verus! {

/// The model of one link: its source, its tag and its target.
pub type LinkView = (Seq<char>, Seq<char>, Seq<char>);

/// The targets linked from `source` under exactly `tag`, in the order the
/// links were added.
pub open spec fn targets_of(links: Seq<LinkView>, source: Seq<char>, tag: Seq<char>) -> Seq<Seq<char>>
    decreases links.len(),
{
    if links.len() == 0 {
        Seq::empty()
    } else {
        let rest = targets_of(links.drop_last(), source, tag);
        let l = links.last();
        if l.0 == source && l.1 == tag {
            rest.push(l.2)
        } else {
            rest
        }
    }
}

/// The model of a list of addresses.
pub open spec fn addresses_view(v: Seq<Address>) -> Seq<Seq<char>> {
    v.map_values(|a: Address| a@)
}

struct Link {
    source: Address,
    tag: String,
    target: Address,
}

/// Links in the order they were added. Duplicates are kept.
pub struct LinkIndex {
    links: Vec<Link>,
}

impl View for LinkIndex {
    type V = Seq<LinkView>;

    closed spec fn view(&self) -> Seq<LinkView> {
        self.links@.map_values(|l: Link| (l.source@, l.tag@, l.target@))
    }
}

impl LinkIndex {
    /// An index with no links.
    pub fn new() -> (r: LinkIndex)
        ensures
            r@ == Seq::<LinkView>::empty(),
    {
        let r = LinkIndex { links: Vec::new() };
        assert(r@ =~= Seq::<LinkView>::empty());
        r
    }

    /// Appends the link `source -tag-> target`.
    pub fn link(&mut self, source: &Address, target: &Address, tag: &str)
        ensures
            final(self)@ == old(self)@.push((source@, tag@, target@)),
    {
        self.links.push(Link { source: source.duplicate(), tag: tag.to_owned(), target: target.duplicate() });
        assert(final(self)@ =~= old(self)@.push((source@, tag@, target@)));
    }

    /// The targets linked from `source` under exactly `tag`, oldest first;
    /// empty where there are none.
    pub fn get_targets(&self, source: &Address, tag: &str) -> (r: Vec<Address>)
        ensures
            addresses_view(r@) == targets_of(self@, source@, tag@),
    {
        let mut out: Vec<Address> = Vec::new();
        let mut i: usize = 0;
        let tag_text = tag.to_owned();
        while i < self.links.len()
            invariant
                i <= self.links@.len(),
                tag_text@ == tag@,
                addresses_view(out@) == targets_of(self@.subrange(0, i as int), source@, tag@),
            decreases self.links@.len() - i,
        {
            let l = &self.links[i];
            let ghost pre = self@.subrange(0, i as int);
            assert(self@.subrange(0, i + 1).drop_last() =~= pre);
            assert(self@.subrange(0, i + 1).last() == (l.source@, l.tag@, l.target@));
            if l.source.same_as(source) && l.tag == tag_text {
                let ghost before = out@;
                out.push(l.target.duplicate());
                assert(addresses_view(out@) =~= addresses_view(before).push(l.target@));
            }
            i = i + 1;
        }
        assert(self@.subrange(0, self.links@.len() as int) =~= self@);
        out
    }
}

} // verus!
