use vstd::prelude::*;

verus! {

/// One mapping of a source map: a position in generated code and the
/// original position it came from.
#[derive(Debug, PartialEq, Eq)]
pub struct Token {
    pub generated_line: u64,
    pub generated_column: u64,
    pub original_file: String,
    pub original_line: u64,
    pub original_column: u64,
    pub name: Option<String>,
}

/// A source map, as the list of its mappings.
#[derive(Debug, PartialEq, Eq)]
pub struct SourceMap {
    pub tokens: Vec<Token>,
}

impl View for SourceMap {
    type V = Seq<Token>;

    open spec fn view(&self) -> Seq<Token> {
        self.tokens@
    }
}

/// The original position of a traced stack frame.
///
/// `name` is the symbol that the map records at that position, `None` when
/// the map records none; `reported_name` is the method name that the client
/// reported for the frame, kept so that a viewer can fall back on it.
#[derive(Debug, PartialEq, Eq)]
pub struct TracedPosition {
    pub file: String,
    pub line: u64,
    pub column: u64,
    pub name: Option<String>,
    pub reported_name: Option<String>,
}

pub struct TracedPositionView {
    pub file: Seq<char>,
    pub line: u64,
    pub column: u64,
    pub name: Option<Seq<char>>,
    pub reported_name: Option<Seq<char>>,
}

pub open spec fn name_view(n: Option<String>) -> Option<Seq<char>> {
    match n {
        Some(s) => Some(s@),
        None => None,
    }
}

impl View for TracedPosition {
    type V = TracedPositionView;

    open spec fn view(&self) -> TracedPositionView {
        TracedPositionView {
            file: self.file@,
            line: self.line,
            column: self.column,
            name: name_view(self.name),
            reported_name: name_view(self.reported_name),
        }
    }
}

pub open spec fn traced_view(t: Option<TracedPosition>) -> Option<TracedPositionView> {
    match t {
        Some(p) => Some(p@),
        None => None,
    }
}

/// A token covers a position when it lies on the same generated line, at or
/// before the column.
pub open spec fn covers(t: Token, line: u64, column: u64) -> bool {
    t.generated_line == line && t.generated_column <= column
}

/// The index of the token that a position maps through: among the tokens that
/// cover it, the one with the greatest generated column, the last such one
/// where several share that column.
pub open spec fn lookup(tokens: Seq<Token>, line: u64, column: u64) -> Option<int>
    decreases tokens.len(),
{
    if tokens.len() == 0 {
        None
    } else {
        let prev = lookup(tokens.drop_last(), line, column);
        let last = tokens.last();
        if covers(last, line, column) && (prev is None || tokens[prev->0].generated_column
            <= last.generated_column) {
            Some(tokens.len() - 1)
        } else {
            prev
        }
    }
}

/// What tracing a generated position through a map gives.
pub open spec fn spec_trace(
    tokens: Seq<Token>,
    line: u64,
    column: u64,
    reported_name: Option<Seq<char>>,
) -> Option<TracedPositionView> {
    match lookup(tokens, line, column) {
        None => None,
        Some(i) => Some(
            TracedPositionView {
                file: tokens[i].original_file@,
                line: tokens[i].original_line,
                column: tokens[i].original_column,
                name: name_view(tokens[i].name),
                reported_name,
            },
        ),
    }
}

/// Every token that `lookup` picks covers the position, and no covering token
/// lies at a greater generated column.
pub proof fn lemma_lookup_is_greatest(tokens: Seq<Token>, line: u64, column: u64)
    ensures
        lookup(tokens, line, column) matches Some(i) ==> {
            &&& 0 <= i < tokens.len()
            &&& covers(tokens[i], line, column)
            &&& forall|j: int|
                0 <= j < tokens.len() && covers(tokens[j], line, column)
                    ==> tokens[j].generated_column <= tokens[i].generated_column
        },
        lookup(tokens, line, column) is None ==> forall|j: int|
            0 <= j < tokens.len() ==> !covers(#[trigger] tokens[j], line, column),
    decreases tokens.len(),
{
    if tokens.len() > 0 {
        let init = tokens.drop_last();
        let n = tokens.len() - 1;
        lemma_lookup_is_greatest(init, line, column);
        assert forall|j: int| 0 <= j < init.len() implies #[trigger] init[j] == tokens[j] by {}
        assert(tokens.last() == tokens[n]);
        if let Some(i) = lookup(init, line, column) {
            assert(init[i] == tokens[i]);
        }
        assert forall|j: int| 0 <= j < tokens.len() && j != n implies #[trigger] tokens[j]
            == init[j] by {}
    }
}

pub fn clone_name(n: &Option<String>) -> (r: Option<String>)
    ensures
        r == *n,
{
    match n {
        Some(s) => Some(s.clone()),
        None => None,
    }
}

impl TracedPositionView {
    /// The name to show for the frame: the symbol that the map records, else
    /// the method name that the client reported.
    pub open spec fn shown_name(&self) -> Option<Seq<char>> {
        match self.name {
            Some(n) => Some(n),
            None => self.reported_name,
        }
    }
}

impl TracedPosition {
    /// The name to show for the frame: the symbol that the map records, else
    /// the method name that the client reported.
    pub fn display_name(&self) -> (r: Option<String>)
        ensures
            name_view(r) == self@.shown_name(),
    {
        match &self.name {
            Some(n) => Some(n.clone()),
            None => clone_name(&self.reported_name),
        }
    }
}

impl Token {
    /// A copy of the token.
    pub fn duplicate(&self) -> (r: Token)
        ensures
            r == *self,
    {
        Token {
            generated_line: self.generated_line,
            generated_column: self.generated_column,
            original_file: self.original_file.clone(),
            original_line: self.original_line,
            original_column: self.original_column,
            name: clone_name(&self.name),
        }
    }
}

impl SourceMap {
    /// A copy of the map, with the same tokens in the same order.
    pub fn duplicate(&self) -> (r: SourceMap)
        ensures
            r@ == self@,
    {
        let mut tokens: Vec<Token> = Vec::new();
        let mut i: usize = 0;
        while i < self.tokens.len()
            invariant
                i <= self.tokens@.len(),
                tokens@ == self.tokens@.subrange(0, i as int),
            decreases self.tokens@.len() - i,
        {
            tokens.push(self.tokens[i].duplicate());
            i = i + 1;
        }
        assert(tokens@ =~= self.tokens@);
        SourceMap { tokens }
    }

    /// The index of the token through which a generated position maps.
    pub fn lookup_token(&self, line: u64, column: u64) -> (r: Option<usize>)
        ensures
            match r {
                Some(i) => i < self@.len() && lookup(self@, line, column) == Some(i as int),
                None => lookup(self@, line, column) is None,
            },
    {
        let mut best: Option<usize> = None;
        let mut i: usize = 0;
        while i < self.tokens.len()
            invariant
                i <= self.tokens@.len(),
                best matches Some(b) ==> b < i,
                match best {
                    Some(b) => lookup(self@.subrange(0, i as int), line, column) == Some(b as int),
                    None => lookup(self@.subrange(0, i as int), line, column) is None,
                },
            decreases self.tokens@.len() - i,
        {
            let t = &self.tokens[i];
            proof {
                let s = self@.subrange(0, i + 1);
                assert(s.drop_last() =~= self@.subrange(0, i as int));
                assert(s.last() == self@[i as int]);
                if let Some(b) = best {
                    assert(s[b as int] == self@[b as int]);
                }
            }
            if t.generated_line == line && t.generated_column <= column {
                match best {
                    None => {
                        best = Some(i);
                    },
                    Some(b) => {
                        if self.tokens[b].generated_column <= t.generated_column {
                            best = Some(i);
                        }
                    },
                }
            }
            i = i + 1;
        }
        assert(self@.subrange(0, i as int) =~= self@);
        best
    }

    /// Traces a generated position to its original position.
    pub fn trace(&self, line: u64, column: u64, reported_name: Option<String>) -> (r: Option<
        TracedPosition,
    >)
        ensures
            traced_view(r) == spec_trace(self@, line, column, name_view(reported_name)),
    {
        match self.lookup_token(line, column) {
            None => None,
            Some(i) => {
                let t = &self.tokens[i];
                Some(
                    TracedPosition {
                        file: t.original_file.clone(),
                        line: t.original_line,
                        column: t.original_column,
                        name: clone_name(&t.name),
                        reported_name,
                    },
                )
            },
        }
    }
}

} // verus!
