use menoh_captioning::buffers::one_hot;
use menoh_captioning::buffers::planar_bgr;
use menoh_captioning::caption::caption_capped;
use menoh_captioning::caption::caption_of_tokens;
use menoh_captioning::decode::argmax;
use menoh_captioning::session::Session;
use menoh_captioning::session::StepAction;
use menoh_captioning::token::classify_token;
use menoh_captioning::token::TokenOutcome;
use menoh_captioning::words::caption_words;

/// Order key for a decoder score: `None` for a not-a-number score,
/// otherwise a bit pattern whose unsigned order matches the floats'.
fn score_key(x: f32) -> Option<u64> {
    if x.is_nan() {
        None
    } else {
        let bits = x.to_bits();
        let key = if bits & 0x8000_0000 != 0 {
            !bits
        } else {
            bits | 0x8000_0000
        };
        Some(key as u64)
    }
}

#[test]
fn stop_token_classifies_as_stop() {
    assert_eq!(classify_token(1), TokenOutcome::Stop);
}

#[test]
fn sentinels_classify_as_unknown() {
    assert_eq!(classify_token(0), TokenOutcome::Unknown);
    assert_eq!(classify_token(2), TokenOutcome::Unknown);
}

#[test]
fn word_tokens_classify_with_offset() {
    assert_eq!(classify_token(3), TokenOutcome::Word(0));
    assert_eq!(classify_token(5), TokenOutcome::Word(2));
    assert_eq!(classify_token(8944), TokenOutcome::Word(8941));
}

#[test]
fn greedy_picks_highest_score() {
    let scores = vec![score_key(0.1), score_key(0.9), score_key(0.3)];
    assert_eq!(argmax(&scores), 1);
}

#[test]
fn greedy_orders_negative_scores() {
    let scores = vec![score_key(-0.5), score_key(-0.1), score_key(-2.0)];
    assert_eq!(argmax(&scores), 1);
}

#[test]
fn greedy_breaks_ties_toward_first() {
    let scores = vec![score_key(0.7), score_key(0.7), score_key(0.2)];
    assert_eq!(argmax(&scores), 0);
}

#[test]
fn nan_never_beats_ordinary_score() {
    let scores = vec![score_key(f32::NAN), score_key(0.5)];
    assert_eq!(argmax(&scores), 1);
    let scores = vec![score_key(0.5), score_key(f32::NAN)];
    assert_eq!(argmax(&scores), 0);
}

#[test]
fn all_nan_scores_pick_first_index() {
    let scores = vec![score_key(f32::NAN), score_key(f32::NAN), score_key(f32::NAN)];
    assert_eq!(argmax(&scores), 0);
}

#[test]
fn fresh_session_demands_priming() {
    let s = Session::new();
    assert_eq!(s.next_action(), StepAction::Prime);
    assert_eq!(s.steps, 0);
}

#[test]
fn primed_session_feeds_start_sentinel() {
    let mut s = Session::new();
    s.primed();
    assert_eq!(s.next_action(), StepAction::Feed { prev: 0 });
}

#[test]
fn session_emits_per_protocol() {
    let mut s = Session::new();
    s.primed();
    assert_eq!(s.absorb(5), Some(Some(2)));
    assert_eq!(s.next_action(), StepAction::Feed { prev: 5 });
    assert_eq!(s.absorb(0), Some(None));
    assert_eq!(s.absorb(2), Some(None));
    assert_eq!(s.next_action(), StepAction::Feed { prev: 2 });
    assert_eq!(s.absorb(1), None);
    assert_eq!(s.next_action(), StepAction::Done);
    assert_eq!(s.steps, 4);
}

#[test]
fn failed_session_is_terminal() {
    let mut s = Session::new();
    s.primed();
    assert_eq!(s.absorb(7), Some(Some(4)));
    s.failed();
    assert_eq!(s.next_action(), StepAction::Done);
}

#[test]
fn stop_on_first_decode_yields_empty_caption() {
    let toks = vec![1];
    let caption = caption_of_tokens(&toks);
    assert_eq!(caption, Vec::<Option<usize>>::new());
}

#[test]
fn empty_run_yields_empty_caption() {
    let toks: Vec<usize> = Vec::new();
    assert_eq!(caption_of_tokens(&toks), Vec::<Option<usize>>::new());
}

#[test]
fn three_step_run_yields_two_words() {
    let toks = vec![5, 7, 1];
    assert_eq!(caption_of_tokens(&toks), vec![Some(2), Some(4)]);
}

#[test]
fn tokens_after_stop_are_ignored() {
    let toks = vec![5, 1, 9, 9];
    assert_eq!(caption_of_tokens(&toks), vec![Some(2)]);
}

#[test]
fn sentinels_mid_sequence_emit_absent() {
    let toks = vec![0, 4, 2, 1];
    assert_eq!(caption_of_tokens(&toks), vec![None, Some(1), None]);
}

#[test]
fn step_cap_yields_exactly_cap_elements() {
    let toks = vec![4; 40];
    let caption = caption_capped(&toks, 30);
    assert_eq!(caption.len(), 30);
    for e in caption {
        assert_eq!(e, Some(1));
    }
}

#[test]
fn capped_run_still_stops_at_stop_sentinel() {
    let toks = vec![5, 1, 5];
    assert_eq!(caption_capped(&toks, 30), vec![Some(2)]);
}

#[test]
fn cap_of_zero_yields_empty_caption() {
    let toks = vec![5, 7];
    assert_eq!(caption_capped(&toks, 0), Vec::<Option<usize>>::new());
}

#[test]
fn independent_runs_are_bit_identical() {
    let toks = vec![9, 0, 33, 2, 6, 1, 4];
    let first = caption_of_tokens(&toks);
    let second = caption_of_tokens(&toks);
    assert_eq!(first, second);
    assert_eq!(first, vec![Some(6), None, Some(30), None, Some(3)]);
}

#[test]
fn one_hot_sets_single_position() {
    let v = one_hot(3, 8);
    assert_eq!(v.len(), 8);
    for (k, s) in v.iter().enumerate() {
        assert_eq!(*s, if k == 3 { 1 } else { 0 });
    }
}

#[test]
fn one_hot_of_first_position() {
    assert_eq!(one_hot(0, 3), vec![1, 0, 0]);
}

#[test]
fn planar_layout_reverses_channels() {
    let size = 2;
    let pix: Vec<u8> = (0..12).collect();
    let planar = planar_bgr(&pix, size);
    assert_eq!(planar.len(), 12);
    for c in 0..3 {
        for y in 0..size {
            for x in 0..size {
                let dst = (c * size + y) * size + x;
                let src = 3 * (y * size + x) + (2 - c);
                assert_eq!(planar[dst], pix[src]);
            }
        }
    }
    assert_eq!(planar, vec![2, 5, 8, 11, 1, 4, 7, 10, 0, 3, 6, 9]);
}

#[test]
fn caption_words_renders_placeholder_for_absent() {
    let caption = vec![Some(0), None, Some(1)];
    let vocab = vec![String::from("red"), String::from("bus")];
    let words = caption_words(&caption, &vocab);
    assert_eq!(words, vec!["red", "<unk>", "bus"]);
}

#[test]
fn caption_words_of_empty_caption() {
    let caption: Vec<Option<usize>> = Vec::new();
    let vocab = vec![String::from("red")];
    assert_eq!(caption_words(&caption, &vocab), Vec::<&str>::new());
}

#[test]
fn cap_below_stop_truncates_the_caption() {
    let toks = vec![4, 5, 6, 7];
    assert_eq!(caption_capped(&toks, 2), vec![Some(1), Some(2)]);
}

#[test]
fn largest_token_still_classifies_as_word() {
    assert_eq!(classify_token(usize::MAX), TokenOutcome::Word(usize::MAX - 3));
}
