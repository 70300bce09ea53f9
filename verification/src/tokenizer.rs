use vstd::prelude::*;
use crate::scanner::{lexemes_view, scan, scan_spec};
use crate::state_machine::{
    build_token_spec, characterize_spec, initial_fsm, FsmView, FSM,
};
use crate::token::{LexemeView, Token, TokenView};

verus! {

/// The views of a token vector.
pub open spec fn tokens_view(s: Seq<Token>) -> Seq<TokenView> {
    s.map_values(|t: Token| t@)
}

/// The tokens the machine emits from a lexeme sequence, starting in
/// state `v`: each lexeme is consumed, and whenever it closes a token,
/// the token of the state being left is emitted.
pub open spec fn tokenize_from(v: FsmView, lx: Seq<LexemeView>) -> Seq<TokenView>
    decreases lx.len(),
{
    if lx.len() == 0 {
        Seq::<TokenView>::empty()
    } else {
        let stepped = characterize_spec(v, lx[0]);
        match stepped.0 {
            None => tokenize_from(stepped.1, lx.skip(1)),
            Some(m) => {
                let built = build_token_spec(stepped.1);
                let moved = FsmView { state: m, ..built.1 };
                match built.0 {
                    Some(t) => seq![t] + tokenize_from(moved, lx.skip(1)),
                    None => tokenize_from(moved, lx.skip(1)),
                }
            },
        }
    }
}

/// The token sequence of a text: the machine run from beginning-of-file
/// over the text's lexemes.
pub open spec fn tokenize_spec(s: Seq<char>) -> Seq<TokenView> {
    tokenize_from(initial_fsm(), scan_spec(s))
}

/// Turn raw text into semantic tokens. Total: malformed input degrades
/// to diagnostics inside the machine, never to a failure.
pub fn tokenize(text: &str) -> (r: Vec<Token>)
    ensures
        tokens_view(r@) == tokenize_spec(text@),
{
    let lexemes = scan(text);
    let ghost lxv = lexemes_view(lexemes@);
    let mut fsm = FSM::new();
    let mut tokens: Vec<Token> = Vec::new();
    let n = lexemes.len();
    let mut i: usize = 0;
    proof {
        assert(lxv.skip(0) =~= lxv);
        assert(tokens_view(tokens@) + tokenize_from(fsm@, lxv.skip(0)) =~= tokenize_spec(text@));
    }
    while i < n
        invariant
            n == lexemes@.len(),
            lxv == lexemes_view(lexemes@),
            lexemes_view(lexemes@) == scan_spec(text@),
            0 <= i <= n,
            tokens_view(tokens@) + tokenize_from(fsm@, lxv.skip(i as int)) == tokenize_spec(
                text@,
            ),
        decreases n - i,
    {
        let ghost prefix = tokens_view(tokens@);
        let ghost rest = lxv.skip(i as int);
        let ghost pre = fsm@;
        proof {
            assert(rest[0] == lxv[i as int]);
            assert(lxv[i as int] == lexemes@[i as int]@);
            assert(rest.skip(1) =~= lxv.skip(i + 1));
        }
        let lexeme = &lexemes[i];
        match fsm.characterize_lexeme(lexeme) {
            Some(next) => {
                let ghost mid = fsm@;
                match fsm.build_token() {
                    Some(token) => {
                        proof {
                            assert(tokens_view(tokens@.push(token)) =~= prefix.push(token@));
                        }
                        tokens.push(token);
                    },
                    None => (),
                }
                fsm.set_state(next);
                proof {
                    let built = build_token_spec(mid);
                    assert(fsm@ == (FsmView { state: next, ..built.1 }));
                    match built.0 {
                        Some(tv) => {
                            assert(tokens_view(tokens@) + tokenize_from(fsm@, lxv.skip(i + 1))
                                =~= prefix + (seq![tv] + tokenize_from(fsm@, rest.skip(1))));
                        },
                        None => (),
                    }
                }
            },
            None => (),
        }
        i += 1;
    }
    proof {
        assert(lxv.skip(n as int) =~= Seq::<LexemeView>::empty());
        assert(tokens_view(tokens@) + tokenize_from(fsm@, lxv.skip(n as int)) =~= tokens_view(
            tokens@,
        ));
    }
    tokens
}

} // verus!
