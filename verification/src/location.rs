use vstd::prelude::*;
use vstd::string::StringExecFns;

verus! {

/// A diagnostic-only record of where an access was initiated, kept as an
/// opaque human-readable descriptor (for instance `file:line:column`).
///
/// A descriptor never affects the borrow-state machine itself; it is only
/// echoed back when a conflicting access is reported.
#[derive(Debug)]
pub struct Location {
    description: String,
}

impl View for Location {
    type V = Seq<char>;

    closed spec fn view(&self) -> Seq<char> {
        self.description@
    }
}

impl Clone for Location {
    fn clone(&self) -> (r: Self)
        ensures
            r == *self,
    {
        Location { description: self.description.clone() }
    }
}

impl Location {
    /// Wraps a descriptor produced by whatever probe the caller uses.
    pub fn new(description: String) -> (l: Location)
        ensures
            l@ == description@,
    {
        Location { description }
    }

    /// The descriptor's text.
    pub fn describe(&self) -> (s: &str)
        ensures
            s@ == self@,
    {
        self.description.as_str()
    }
}

/// One location descriptor, set off by a rule, as it appears inside an
/// error message.
pub open spec fn location_block(l: Location) -> Seq<char> {
    "  ---------------\n  "@ + l@
}

/// The blocks of all of `locs`, joined by newlines; empty for no locations.
pub open spec fn locations_text(locs: Seq<Location>) -> Seq<char>
    decreases locs.len(),
{
    if locs.len() == 0 {
        Seq::empty()
    } else if locs.len() == 1 {
        location_block(locs[0])
    } else {
        location_block(locs[0]) + "\n"@ + locations_text(locs.drop_first())
    }
}

/// Appending one location extends the joined text by a newline and one block.
proof fn lemma_locations_text_push(locs: Seq<Location>, l: Location)
    requires
        locs.len() > 0,
    ensures
        locations_text(locs.push(l)) == locations_text(locs) + "\n"@ + location_block(l),
    decreases locs.len(),
{
    let p = locs.push(l);
    if locs.len() == 1 {
        assert(p.drop_first() =~= seq![l]);
        assert(seq![l][0] == l);
        assert(locations_text(seq![l]) == location_block(l));
        assert(p[0] == locs[0]);
        assert(locations_text(p) =~= locations_text(locs) + "\n"@ + location_block(l));
    } else {
        assert(p.drop_first() =~= locs.drop_first().push(l));
        lemma_locations_text_push(locs.drop_first(), l);
        assert(locations_text(p) =~= locations_text(locs) + "\n"@ + location_block(l));
    }
}

/// Renders the descriptors of the currently active accesses, one block per
/// location, joined by newlines.
pub fn locations_display(locations: &[Location]) -> (r: String)
    ensures
        r@ == locations_text(locations@),
{
    let mut r = String::new();
    let mut i: usize = 0;
    while i < locations.len()
        invariant
            i <= locations@.len(),
            r@ == locations_text(locations@.subrange(0, i as int)),
        decreases locations@.len() - i,
    {
        if i > 0 {
            r.append("\n");
        }
        r.append("  ---------------\n  ");
        r.append(locations[i].describe());
        proof {
            let pre = locations@.subrange(0, i as int);
            let post = locations@.subrange(0, i as int + 1);
            assert(post =~= pre.push(locations@[i as int]));
            if i > 0 {
                lemma_locations_text_push(pre, locations@[i as int]);
            }
            assert(r@ =~= locations_text(post));
        }
        i = i + 1;
    }
    proof {
        assert(locations@.subrange(0, locations@.len() as int) =~= locations@);
    }
    r
}

} // verus!
