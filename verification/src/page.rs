use vstd::prelude::*;

verus! {

/// The three pages of the user interface, in display order.
#[derive(Clone, Copy, Debug, PartialEq, Eq, Structural)]
pub enum Page {
    TempHumi,
    Pm25,
    Hcho,
}

/// The page that follows `p` when the encoder turns forward.
pub open spec fn spec_next(p: Page) -> Page {
    match p {
        Page::TempHumi => Page::Pm25,
        Page::Pm25 => Page::Hcho,
        Page::Hcho => Page::TempHumi,
    }
}

/// The page that precedes `p` when the encoder turns backward.
pub open spec fn spec_prev(p: Page) -> Page {
    match p {
        Page::TempHumi => Page::Hcho,
        Page::Hcho => Page::Pm25,
        Page::Pm25 => Page::TempHumi,
    }
}

/// Position of a page in the cycle (0, 1 or 2).
pub open spec fn page_index(p: Page) -> int {
    match p {
        Page::TempHumi => 0,
        Page::Pm25 => 1,
        Page::Hcho => 2,
    }
}

impl Page {
    /// Next page in the cycle TempHumi -> Pm25 -> Hcho -> TempHumi.
    pub fn next(self) -> (r: Page)
        ensures
            r == spec_next(self),
            page_index(r) == (page_index(self) + 1) % 3,
    {
        match self {
            Page::TempHumi => Page::Pm25,
            Page::Pm25 => Page::Hcho,
            Page::Hcho => Page::TempHumi,
        }
    }

    /// Previous page in the cycle TempHumi -> Hcho -> Pm25 -> TempHumi.
    pub fn prev(self) -> (r: Page)
        ensures
            r == spec_prev(self),
            page_index(r) == (page_index(self) + 2) % 3,
    {
        match self {
            Page::TempHumi => Page::Hcho,
            Page::Hcho => Page::Pm25,
            Page::Pm25 => Page::TempHumi,
        }
    }
}

/// Turning the encoder one step back undoes a step forward, and the other way
/// round.
pub proof fn lemma_next_prev_inverse(p: Page)
    ensures
        spec_prev(spec_next(p)) == p,
        spec_next(spec_prev(p)) == p,
{
}

/// Three steps in the same direction come back to the page one started on.
pub proof fn lemma_three_steps_cycle(p: Page)
    ensures
        spec_next(spec_next(spec_next(p))) == p,
        spec_prev(spec_prev(spec_prev(p))) == p,
{
}

/// Every page is reached from any other by stepping forward.
pub proof fn lemma_next_reaches_all(p: Page, q: Page)
    ensures
        q == p || q == spec_next(p) || q == spec_next(spec_next(p)),
{
}

} // verus!
