//! Command history and the position of the prompt while browsing it.

use vstd::prelude::*;

verus! {

/// Where the prompt stands while the user browses the history.
#[derive(Clone, Copy, Debug, PartialEq, Eq, Structural)]
pub enum HistoryInd {
    /// The line being typed, not a line of the history.
    Prompt,
    /// The history line with this index; index 0 is the most recent line.
    Line(usize),
}

impl HistoryInd {
    /// A position is valid for a history of `limit` lines when it is the
    /// prompt or the index of one of those lines.
    pub open spec fn valid(self, limit: nat) -> bool {
        match self {
            HistoryInd::Prompt => true,
            HistoryInd::Line(i) => i < limit,
        }
    }

    /// The position one step towards older lines: from the prompt to the
    /// most recent line, from a line to the next older one, and never past
    /// the oldest line. In an empty history the position is the prompt.
    pub open spec fn spec_up(self, limit: nat) -> HistoryInd {
        match self {
            HistoryInd::Prompt => if limit == 0 {
                HistoryInd::Prompt
            } else {
                HistoryInd::Line(0)
            },
            HistoryInd::Line(i) => if i + 1 < limit {
                HistoryInd::Line((i + 1) as usize)
            } else if limit == 0 {
                HistoryInd::Prompt
            } else {
                HistoryInd::Line((limit - 1) as usize)
            },
        }
    }

    /// The position one step towards newer lines: from a line to the next
    /// newer one, and from the most recent line to the prompt, where it stays.
    pub open spec fn spec_down(self) -> HistoryInd {
        match self {
            HistoryInd::Prompt => HistoryInd::Prompt,
            HistoryInd::Line(i) => if i == 0 {
                HistoryInd::Prompt
            } else {
                HistoryInd::Line((i - 1) as usize)
            },
        }
    }

    /// Go up (less recent) in a history of `limit` lines.
    pub fn up(&self, limit: usize) -> (r: HistoryInd)
        ensures
            r == self.spec_up(limit as nat),
            r.valid(limit as nat),
    {
        match *self {
            HistoryInd::Prompt => {
                if limit == 0 {
                    HistoryInd::Prompt
                } else {
                    HistoryInd::Line(0)
                }
            },
            HistoryInd::Line(i) => {
                if limit == 0 {
                    HistoryInd::Prompt
                } else if i < limit - 1 {
                    HistoryInd::Line(i + 1)
                } else {
                    HistoryInd::Line(limit - 1)
                }
            },
        }
    }

    /// Go down (more recent); from the most recent line back to the prompt.
    pub fn down(&self) -> (r: HistoryInd)
        ensures
            r == self.spec_down(),
            forall|limit: nat| self.valid(limit) ==> r.valid(limit),
    {
        match *self {
            HistoryInd::Prompt => HistoryInd::Prompt,
            HistoryInd::Line(i) => {
                if i == 0 {
                    HistoryInd::Prompt
                } else {
                    HistoryInd::Line(i - 1)
                }
            },
        }
    }
}

/// The store of submitted lines that the editor browses.
pub trait History {
    /// The stored lines, the most recent first.
    spec fn lines(&self) -> Seq<Seq<char>>;

    /// Stores a line as the most recent one.
    fn add(&mut self, item: String)
        ensures
            final(self).lines() == seq![item@] + old(self).lines(),
    ;

    /// Forgets every line.
    fn clear(&mut self)
        ensures
            final(self).lines() == Seq::<Seq<char>>::empty(),
    ;

    /// The number of stored lines.
    fn len(&self) -> (n: usize)
        ensures
            n == self.lines().len(),
    ;

    /// The line with index `i`, counted from the most recent one.
    fn get(&self, i: usize) -> (r: Option<&String>)
        ensures
            match r {
                Some(s) => i < self.lines().len() && s@ == self.lines()[i as int],
                None => i >= self.lines().len(),
            },
    ;
}

/// A history kept in memory for the life of the process.
pub struct DefaultHistory {
    hist: Vec<String>,
}

impl DefaultHistory {
    /// An empty history.
    pub fn new() -> (h: DefaultHistory)
        ensures
            h.lines() == Seq::<Seq<char>>::empty(),
    {
        let h = DefaultHistory { hist: Vec::new() };
        assert(h.lines() =~= Seq::<Seq<char>>::empty());
        h
    }
}

impl History for DefaultHistory {
    closed spec fn lines(&self) -> Seq<Seq<char>> {
        Seq::new(self.hist@.len(), |i: int| self.hist@[i]@)
    }

    fn add(&mut self, item: String) {
        let ghost text = item@;
        self.hist.insert(0, item);
        assert(self.lines() =~= seq![text] + old(self).lines());
    }

    fn clear(&mut self) {
        self.hist.clear();
        assert(self.lines() =~= Seq::<Seq<char>>::empty());
    }

    fn len(&self) -> (n: usize) {
        self.hist.len()
    }

    fn get(&self, i: usize) -> (r: Option<&String>) {
        if i < self.hist.len() {
            Some(&self.hist[i])
        } else {
            None
        }
    }
}

} // verus!
