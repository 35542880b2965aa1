//! The line tokenizer: one newline-free line to an ordered token sequence.
//!
//! A hand-rolled lexical analyzer with lookahead-sensitive disambiguation: a
//! run of sentence-ending punctuation coalesces into one token, and the
//! character that ends such a run is re-examined under the ordinary rules.
//! The machine is specified as a small-step transition function
//! ([`lex_step`]) folded over the line ([`lex_run`]); the executable lexer
//! follows it step for step.

use vstd::prelude::*;
use vstd::string::*;

use crate::diagnostics::{
    lemma_line_diags_model_push, line_diags_model, LineDiagModel, LineDiagnostic,
};
use crate::parser::line_item_parser::{span_item, span_token};
use crate::parser::terminator_parser::TerminatorParser;
use crate::text::{chars_to_string, push_char, to_chars};
use crate::tokens::line_item::{
    classify_terminator, is_exclamation_char, items_model, lemma_items_model_push, LineItem,
    TokenModel,
};

verus! {

/// The tokenizer's state between two characters.
///
/// The end of the line plays the part of a final flushing state: any pending
/// terminator run becomes a final sentence end, any pending text a final
/// plain-text token, and an unterminated annotation span a diagnostic.
#[derive(Debug, Clone, Copy, PartialEq, Eq)]
pub enum State {
    /// Skipping leading spaces.
    Initial,
    /// Accumulating plain text.
    Normal,
    /// Accumulating the content of a `{...}` span.
    Brace,
    /// Coalescing a run of sentence-ending punctuation.
    SentenceTermination,
}

/// The characters skipped at the start of a line.
pub open spec fn is_space(c: char) -> bool {
    c == ' ' || c == '　'
}

/// The sentence delimiter characters.
pub open spec fn is_delimiter(c: char) -> bool {
    c == ',' || c == '、' || c == '，'
}

/// The characters that open or extend a terminator run.
pub open spec fn is_terminator_char(c: char) -> bool {
    is_exclamation_char(c) || c == '。' || c == '」'
}

/// The whole condition of the machine: its state, the pending buffer, where
/// the pending span started, and everything emitted so far.
#[verifier::ext_equal]
pub struct LexConfig {
    pub state: State,
    pub acc: Seq<char>,
    pub span_start: int,
    pub tokens: Seq<TokenModel>,
    pub diags: Seq<LineDiagModel>,
}

/// The machine before any character.
pub open spec fn lex_init() -> LexConfig {
    LexConfig {
        state: State::Initial,
        acc: Seq::empty(),
        span_start: 0,
        tokens: Seq::empty(),
        diags: Seq::empty(),
    }
}

/// The pending plain text flushed as a token, if there is any.
pub open spec fn flush_text(tokens: Seq<TokenModel>, acc: Seq<char>) -> Seq<TokenModel> {
    if acc.len() > 0 {
        tokens.push(TokenModel::Text(acc))
    } else {
        tokens
    }
}

/// A `}` closes the pending span: a recognized shape becomes its token, any
/// other content becomes a malformed-annotation diagnostic.
pub open spec fn close_span(cfg: LexConfig) -> LexConfig {
    match span_token(cfg.acc) {
        Some(t) => LexConfig {
            state: State::Normal,
            acc: Seq::empty(),
            span_start: cfg.span_start,
            tokens: cfg.tokens.push(t),
            diags: cfg.diags,
        },
        None => LexConfig {
            state: State::Normal,
            acc: Seq::empty(),
            span_start: cfg.span_start,
            tokens: cfg.tokens,
            diags: cfg.diags.push(
                LineDiagModel { offset: cfg.span_start, snippet: cfg.acc },
            ),
        },
    }
}

/// One transition of the machine on the character `c` at offset `i`.
pub open spec fn lex_step(cfg: LexConfig, c: char, i: int) -> LexConfig {
    match cfg.state {
        State::Initial => {
            if is_space(c) {
                cfg
            } else if c == '{' {
                LexConfig {
                    state: State::Brace,
                    acc: Seq::empty(),
                    span_start: i,
                    tokens: cfg.tokens,
                    diags: cfg.diags,
                }
            } else {
                LexConfig {
                    state: State::Normal,
                    acc: seq![c],
                    span_start: cfg.span_start,
                    tokens: cfg.tokens,
                    diags: cfg.diags,
                }
            }
        },
        State::Normal => {
            if is_terminator_char(c) {
                LexConfig {
                    state: State::SentenceTermination,
                    acc: seq![c],
                    span_start: cfg.span_start,
                    tokens: flush_text(cfg.tokens, cfg.acc),
                    diags: cfg.diags,
                }
            } else if is_delimiter(c) {
                LexConfig {
                    state: State::Normal,
                    acc: Seq::empty(),
                    span_start: cfg.span_start,
                    tokens: flush_text(cfg.tokens, cfg.acc).push(TokenModel::Comma(seq![c])),
                    diags: cfg.diags,
                }
            } else if c == '{' {
                LexConfig {
                    state: State::Brace,
                    acc: Seq::empty(),
                    span_start: i,
                    tokens: flush_text(cfg.tokens, cfg.acc),
                    diags: cfg.diags,
                }
            } else {
                LexConfig {
                    state: State::Normal,
                    acc: cfg.acc.push(c),
                    span_start: cfg.span_start,
                    tokens: cfg.tokens,
                    diags: cfg.diags,
                }
            }
        },
        State::Brace => {
            if c == '}' {
                close_span(cfg)
            } else {
                LexConfig {
                    state: State::Brace,
                    acc: cfg.acc.push(c),
                    span_start: cfg.span_start,
                    tokens: cfg.tokens,
                    diags: cfg.diags,
                }
            }
        },
        State::SentenceTermination => {
            if is_terminator_char(c) {
                LexConfig {
                    state: State::SentenceTermination,
                    acc: cfg.acc.push(c),
                    span_start: cfg.span_start,
                    tokens: cfg.tokens,
                    diags: cfg.diags,
                }
            } else {
                let flushed = cfg.tokens.push(
                    TokenModel::EndOfSentence(classify_terminator(cfg.acc)),
                );
                if c == '{' {
                    LexConfig {
                        state: State::Brace,
                        acc: Seq::empty(),
                        span_start: i,
                        tokens: flushed,
                        diags: cfg.diags,
                    }
                } else if is_delimiter(c) {
                    LexConfig {
                        state: State::Normal,
                        acc: Seq::empty(),
                        span_start: cfg.span_start,
                        tokens: flushed.push(TokenModel::Comma(seq![c])),
                        diags: cfg.diags,
                    }
                } else {
                    LexConfig {
                        state: State::Normal,
                        acc: seq![c],
                        span_start: cfg.span_start,
                        tokens: flushed,
                        diags: cfg.diags,
                    }
                }
            }
        },
    }
}

/// The end of the line: a pending terminator run becomes a final sentence
/// end, pending text a final plain-text token, and an unterminated span a
/// malformed-annotation diagnostic.
pub open spec fn lex_finish(cfg: LexConfig) -> LexConfig {
    match cfg.state {
        State::Initial => cfg,
        State::Normal => LexConfig {
            state: cfg.state,
            acc: Seq::empty(),
            span_start: cfg.span_start,
            tokens: flush_text(cfg.tokens, cfg.acc),
            diags: cfg.diags,
        },
        State::Brace => LexConfig {
            state: cfg.state,
            acc: Seq::empty(),
            span_start: cfg.span_start,
            tokens: cfg.tokens,
            diags: cfg.diags.push(
                LineDiagModel { offset: cfg.span_start, snippet: cfg.acc },
            ),
        },
        State::SentenceTermination => LexConfig {
            state: cfg.state,
            acc: Seq::empty(),
            span_start: cfg.span_start,
            tokens: cfg.tokens.push(TokenModel::EndOfSentence(classify_terminator(cfg.acc))),
            diags: cfg.diags,
        },
    }
}

/// The machine run over `s` from position `i`, then finished.
pub open spec fn lex_run(s: Seq<char>, i: int, cfg: LexConfig) -> LexConfig
    decreases s.len() - i,
{
    if i < 0 || i >= s.len() {
        lex_finish(cfg)
    } else {
        lex_run(s, i + 1, lex_step(cfg, s[i], i))
    }
}

/// The tokens and diagnostics of one whole line.
pub open spec fn tokenize_line(s: Seq<char>) -> LexConfig {
    lex_run(s, 0, lex_init())
}

/// The working condition of the executable lexer.
struct Lexer {
    state: State,
    acc: Vec<char>,
    span_start: usize,
    tokens: Vec<LineItem>,
    diags: Vec<LineDiagnostic>,
}

impl Lexer {
    /// The machine condition this lexer is in.
    spec fn model(&self) -> LexConfig {
        LexConfig {
            state: self.state,
            acc: self.acc@,
            span_start: self.span_start as int,
            tokens: items_model(self.tokens@),
            diags: line_diags_model(self.diags@),
        }
    }

    /// Flushes any pending plain text as a token.
    fn flush_pending_text(&mut self)
        ensures
            final(self).model() == (LexConfig {
                acc: Seq::empty(),
                tokens: flush_text(old(self).model().tokens, old(self).model().acc),
                ..old(self).model()
            }),
    {
        if self.acc.len() > 0 {
            let t = chars_to_string(&self.acc);
            proof {
                lemma_items_model_push(self.tokens@, LineItem::Text(t));
            }
            self.tokens.push(LineItem::Text(t));
        }
        self.acc = Vec::new();
        proof {
            assert(self.model() =~= LexConfig {
                acc: Seq::empty(),
                tokens: flush_text(old(self).model().tokens, old(self).model().acc),
                ..old(self).model()
            });
        }
    }

    /// One transition on the character `c` at offset `i`.
    fn process_by_state(&mut self, c: char, i: usize)
        ensures
            final(self).model() == lex_step(old(self).model(), c, i as int),
    {
        match self.state {
            State::Initial => {
                if c == ' ' || c == '　' {
                } else if c == '{' {
                    self.state = State::Brace;
                    self.acc = Vec::new();
                    self.span_start = i;
                } else {
                    self.state = State::Normal;
                    self.acc = Vec::new();
                    self.acc.push(c);
                    proof {
                        assert(self.acc@ =~= seq![c]);
                    }
                }
            },
            State::Normal => {
                if c == '!' || c == '?' || c == '！' || c == '？' || c == '。' || c == '」' {
                    self.flush_pending_text();
                    self.acc = Vec::new();
                    self.acc.push(c);
                    self.state = State::SentenceTermination;
                    proof {
                        assert(self.acc@ =~= seq![c]);
                    }
                } else if c == ',' || c == '、' || c == '，' {
                    self.flush_pending_text();
                    let mut d = String::new();
                    push_char(&mut d, c);
                    proof {
                        assert(d@ =~= seq![c]);
                        lemma_items_model_push(self.tokens@, LineItem::Comma(d));
                    }
                    self.tokens.push(LineItem::Comma(d));
                } else if c == '{' {
                    self.flush_pending_text();
                    self.state = State::Brace;
                    self.span_start = i;
                } else {
                    self.acc.push(c);
                }
            },
            State::Brace => {
                if c == '}' {
                    match span_item(&self.acc) {
                        Some(t) => {
                            proof {
                                lemma_items_model_push(self.tokens@, t);
                            }
                            self.tokens.push(t);
                        },
                        None => {
                            let snippet = chars_to_string(&self.acc);
                            let d = LineDiagnostic { offset: self.span_start, snippet };
                            proof {
                                lemma_line_diags_model_push(self.diags@, d);
                            }
                            self.diags.push(d);
                        },
                    }
                    self.acc = Vec::new();
                    self.state = State::Normal;
                } else {
                    self.acc.push(c);
                }
            },
            State::SentenceTermination => {
                if c == '!' || c == '?' || c == '！' || c == '？' || c == '。' || c == '」' {
                    self.acc.push(c);
                } else {
                    let run = chars_to_string(&self.acc);
                    let term = TerminatorParser::new(run.as_str()).parse();
                    let t = LineItem::EndOfSentence(term);
                    proof {
                        lemma_items_model_push(self.tokens@, t);
                    }
                    self.tokens.push(t);
                    if c == '{' {
                        self.acc = Vec::new();
                        self.state = State::Brace;
                        self.span_start = i;
                    } else if c == ',' || c == '、' || c == '，' {
                        let mut d = String::new();
                        push_char(&mut d, c);
                        proof {
                            assert(d@ =~= seq![c]);
                            lemma_items_model_push(self.tokens@, LineItem::Comma(d));
                        }
                        self.tokens.push(LineItem::Comma(d));
                        self.acc = Vec::new();
                        self.state = State::Normal;
                    } else {
                        self.acc = Vec::new();
                        self.acc.push(c);
                        self.state = State::Normal;
                        proof {
                            assert(self.acc@ =~= seq![c]);
                        }
                    }
                }
            },
        }
        proof {
            assert(self.model() =~= lex_step(old(self).model(), c, i as int));
        }
    }

    /// The end-of-line flush.
    fn finish(&mut self)
        ensures
            final(self).model() == lex_finish(old(self).model()),
    {
        match self.state {
            State::Initial => {},
            State::Normal => {
                self.flush_pending_text();
            },
            State::Brace => {
                let snippet = chars_to_string(&self.acc);
                let d = LineDiagnostic { offset: self.span_start, snippet };
                proof {
                    lemma_line_diags_model_push(self.diags@, d);
                }
                self.diags.push(d);
                self.acc = Vec::new();
            },
            State::SentenceTermination => {
                let run = chars_to_string(&self.acc);
                let term = TerminatorParser::new(run.as_str()).parse();
                let t = LineItem::EndOfSentence(term);
                proof {
                    lemma_items_model_push(self.tokens@, t);
                }
                self.tokens.push(t);
                self.acc = Vec::new();
            },
        }
        proof {
            assert(self.model() =~= lex_finish(old(self).model()));
        }
    }
}

/// Tokenizer for one newline-free line.
pub struct LineParser {
    pub source: String,
}

impl LineParser {
    /// A tokenizer over the given line.
    pub fn new(line: &str) -> (p: Self)
        ensures
            p.source@ == line@,
    {
        Self { source: line.to_owned() }
    }

    /// The ordered tokens of the line, together with the diagnostics for any
    /// malformed annotation spans.
    pub fn parse(&self) -> (r: (Vec<LineItem>, Vec<LineDiagnostic>))
        ensures
            items_model(r.0@) == tokenize_line(self.source@).tokens,
            line_diags_model(r.1@) == tokenize_line(self.source@).diags,
    {
        let chars = to_chars(self.source.as_str());
        let mut lx = Lexer {
            state: State::Initial,
            acc: Vec::new(),
            span_start: 0,
            tokens: Vec::new(),
            diags: Vec::new(),
        };
        proof {
            assert(lx.model() =~= lex_init());
        }
        let mut i: usize = 0;
        while i < chars.len()
            invariant
                i <= chars@.len(),
                chars@ == self.source@,
                lex_run(self.source@, i as int, lx.model()) == tokenize_line(self.source@),
            decreases chars@.len() - i,
        {
            let c = chars[i];
            lx.process_by_state(c, i);
            i += 1;
        }
        lx.finish();
        (lx.tokens, lx.diags)
    }
}

} // verus!
