//! Completion candidates and the engines that produce them.

use vstd::prelude::*;

verus! {

/// A candidate as the contracts see it.
pub struct CompletionView {
    /// The label shown in the menu.
    pub display: Seq<char>,
    /// The text that replaces the word under the cursor.
    pub replacement: Seq<char>,
}

/// One completion candidate.
#[derive(Debug)]
pub struct Completion {
    /// The label shown in the menu.
    pub display: String,
    /// The text that replaces the word under the cursor.
    pub completion: String,
}

impl View for Completion {
    type V = CompletionView;

    open spec fn view(&self) -> CompletionView {
        CompletionView { display: self.display@, replacement: self.completion@ }
    }
}

impl Clone for Completion {
    fn clone(&self) -> (c: Completion)
        ensures
            c@ == self@,
    {
        Completion { display: self.display.clone(), completion: self.completion.clone() }
    }
}

impl Completion {
    /// A candidate shown under its own text.
    pub fn new(completion: &str) -> (c: Completion)
        ensures
            c@ == (CompletionView { display: completion@, replacement: completion@ }),
    {
        Completion {
            display: String::from_str(completion),
            completion: String::from_str(completion),
        }
    }

    /// A candidate shown under a label of its own.
    pub fn with_display(completion: &str, display: &str) -> (c: Completion)
        ensures
            c@ == (CompletionView { display: display@, replacement: completion@ }),
    {
        Completion {
            display: String::from_str(display),
            completion: String::from_str(completion),
        }
    }

    /// The text to insert when the candidate is accepted.
    pub fn accept(&self) -> (s: String)
        ensures
            s@ == self@.replacement,
    {
        self.completion.clone()
    }

    /// The label to show for the candidate.
    pub fn display(&self) -> (s: String)
        ensures
            s@ == self@.display,
    {
        self.display.clone()
    }
}

/// The views of a list of candidates.
pub open spec fn completion_views(v: Seq<Completion>) -> Seq<CompletionView> {
    Seq::new(v.len(), |i: int| v[i]@)
}

/// The views of a list of words.
pub open spec fn word_views(v: Seq<String>) -> Seq<Seq<char>> {
    Seq::new(v.len(), |i: int| v[i]@)
}

/// What a completion engine is asked about: the words of the line up to the
/// cursor.
pub struct CompletionCtx {
    args: Vec<String>,
}

impl View for CompletionCtx {
    type V = Seq<Seq<char>>;

    closed spec fn view(&self) -> Seq<Seq<char>> {
        word_views(self.args@)
    }
}

impl CompletionCtx {
    /// The request for a line split into these words.
    pub fn new(args: Vec<String>) -> (c: CompletionCtx)
        ensures
            c@ == word_views(args@),
    {
        CompletionCtx { args }
    }

    /// The words of the request.
    pub fn args(&self) -> (a: &Vec<String>)
        ensures
            word_views(a@) == self@,
    {
        &self.args
    }

    /// The word being completed: the last word, or the empty word.
    pub open spec fn spec_cur_word(self) -> Seq<char> {
        request_word(self@)
    }

    /// The word being completed.
    pub fn cur_word(&self) -> (w: Option<&String>)
        ensures
            match w {
                Some(s) => self@.len() > 0 && s@ == self@.last(),
                None => self@.len() == 0,
            },
    {
        let n = self.args.len();
        if n == 0 {
            None
        } else {
            Some(&self.args[n - 1])
        }
    }
}

/// The engine that proposes completions. What it proposes is its own
/// business: the editor takes whatever list comes back.
pub trait Completer {
    /// Whether the engine may answer the request for these words with these
    /// candidates. An engine that says nothing may answer with anything.
    open spec fn offers(&self, request: Seq<Seq<char>>, cands: Seq<CompletionView>) -> bool {
        true
    }

    /// The candidates for a request, best first.
    fn complete(&self, ctx: &CompletionCtx) -> (r: Vec<Completion>)
        ensures
            self.offers(ctx@, completion_views(r@)),
    ;
}

/// The word that a request is about: its last word, or the empty word.
pub open spec fn request_word(request: Seq<Seq<char>>) -> Seq<char> {
    if request.len() == 0 {
        Seq::empty()
    } else {
        request.last()
    }
}

/// True when `p` is a prefix of `w`.
pub open spec fn is_prefix(p: Seq<char>, w: Seq<char>) -> bool {
    p.len() <= w.len() && w.subrange(0, p.len() as int) == p
}

/// The candidates that a word list offers for `word`: the words that start
/// with it, in the order of the list.
pub open spec fn prefix_matches(words: Seq<Seq<char>>, word: Seq<char>) -> Seq<CompletionView>
    decreases words.len(),
{
    if words.len() == 0 {
        Seq::empty()
    } else {
        let rest = prefix_matches(words.drop_last(), word);
        if is_prefix(word, words.last()) {
            rest.push(CompletionView { display: words.last(), replacement: words.last() })
        } else {
            rest
        }
    }
}

/// A completer over a fixed list of words.
pub struct DefaultCompleter {
    words: Vec<String>,
}

impl DefaultCompleter {
    /// A completer that knows no word.
    pub fn new() -> (c: DefaultCompleter)
        ensures
            c.words() == Seq::<Seq<char>>::empty(),
    {
        let c = DefaultCompleter { words: Vec::new() };
        assert(c.words() =~= Seq::<Seq<char>>::empty());
        c
    }

    /// The words on offer, in the order they were registered.
    pub closed spec fn words(&self) -> Seq<Seq<char>> {
        word_views(self.words@)
    }

    /// Adds a word to offer.
    pub fn register(&mut self, word: &str)
        ensures
            final(self).words() == old(self).words().push(word@),
    {
        self.words.push(String::from_str(word));
        assert(self.words() =~= old(self).words().push(word@));
    }

    /// The candidates for a request: the registered words that start with the
    /// word being completed.
    pub fn matches(&self, ctx: &CompletionCtx) -> (r: Vec<Completion>)
        ensures
            completion_views(r@) == prefix_matches(self.words(), ctx.spec_cur_word()),
    {
        let empty = String::new();
        let word: &String = match ctx.cur_word() {
            Some(w) => w,
            None => &empty,
        };
        let mut out: Vec<Completion> = Vec::new();
        let mut i: usize = 0;
        assert(self.words().take(0) =~= Seq::<Seq<char>>::empty());
        assert(completion_views(out@) =~= Seq::<CompletionView>::empty());
        while i < self.words.len()
            invariant
                i <= self.words.len(),
                word@ == ctx.spec_cur_word(),
                completion_views(out@) == prefix_matches(self.words().take(i as int), word@),
            decreases self.words.len() - i,
        {
            let ghost before = completion_views(out@);
            assert(self.words().take(i + 1).drop_last() =~= self.words().take(i as int));
            assert(self.words().take(i + 1).last() == self.words@[i as int]@);
            if starts_with(self.words[i].as_str(), word.as_str()) {
                out.push(Completion::new(self.words[i].as_str()));
                assert(completion_views(out@) =~= before.push(
                    CompletionView {
                        display: self.words@[i as int]@,
                        replacement: self.words@[i as int]@,
                    },
                ));
            }
            i = i + 1;
        }
        assert(self.words().take(i as int) =~= self.words());
        out
    }
}

impl Completer for DefaultCompleter {
    /// The answer is the list of registered words that start with the word
    /// asked about.
    open spec fn offers(&self, request: Seq<Seq<char>>, cands: Seq<CompletionView>) -> bool {
        cands == prefix_matches(self.words(), request_word(request))
    }

    fn complete(&self, ctx: &CompletionCtx) -> (r: Vec<Completion>) {
        self.matches(ctx)
    }
}

/// Tells whether `w` starts with `p`.
pub fn starts_with(w: &str, p: &str) -> (r: bool)
    ensures
        r == is_prefix(p@, w@),
{
    let n = p.unicode_len();
    if n > w.unicode_len() {
        return false;
    }
    let mut i: usize = 0;
    while i < n
        invariant
            i <= n,
            n == p@.len(),
            n <= w@.len(),
            w@.subrange(0, i as int) == p@.subrange(0, i as int),
        decreases n - i,
    {
        if w.get_char(i) != p.get_char(i) {
            assert(w@.subrange(0, n as int)[i as int] != p@[i as int]);
            return false;
        }
        assert(w@.subrange(0, i + 1) =~= w@.subrange(0, i as int).push(w@[i as int]));
        assert(p@.subrange(0, i + 1) =~= p@.subrange(0, i as int).push(p@[i as int]));
        i = i + 1;
    }
    assert(p@.subrange(0, n as int) =~= p@);
    true
}

} // verus!
