use aeon_core::error::AeonError;
use aeon_core::judge::sprt::{BatchStats, RelayReputation, SlashVerdict};

struct Judge {
    core: RelayReputation,
    llr: f32,
    upper: f32,
    lower: f32,
}

fn judge(alpha: f32, beta: f32) -> Judge {
    Judge {
        core: RelayReputation::new(),
        llr: 0.0,
        upper: libm::logf((1.0 - beta) / alpha),
        lower: libm::logf(beta / (1.0 - alpha)),
    }
}

fn evaluate(judge: &mut Judge, batch: BatchStats, baseline: f32) -> Result<SlashVerdict, AeonError> {
    let p0 = libm::fmaxf(0.01, baseline);
    let p1 = libm::fminf(0.99, baseline * 1.5);
    let failures = batch.sent.wrapping_sub(batch.received) as f32;
    let successes = batch.successes() as f32;
    let next = judge.llr
        + (failures * libm::logf(p1 / p0) + successes * libm::logf((1.0 - p1) / (1.0 - p0)));
    let verdict = judge.core.evaluate(batch, next >= judge.upper, next <= judge.lower)?;
    judge.llr = next;
    Ok(verdict)
}

#[test]
fn batch_counts_failures_and_successes() {
    let batch = BatchStats { sent: 100, received: 37 };
    assert_eq!(batch.failures(), 63);
    assert_eq!(batch.successes(), 37);
    let all = BatchStats { sent: 5, received: 5 };
    assert_eq!(all.failures(), 0);
    assert_eq!(all.successes(), 5);
}

#[test]
fn empty_batch_is_refused_wherever_the_ratio_stands() {
    let judge = RelayReputation::new();
    let batch = BatchStats { sent: 0, received: 0 };
    for &above in &[false, true] {
        for &below in &[false, true] {
            assert_eq!(judge.evaluate(batch, above, below), Err(AeonError::InvalidInput));
        }
    }
}

#[test]
fn verdict_follows_the_bounds() {
    let judge = RelayReputation::new();
    let batch = BatchStats { sent: 1, received: 1 };
    assert_eq!(judge.evaluate(batch, true, false), Ok(SlashVerdict::Slash));
    assert_eq!(judge.evaluate(batch, false, true), Ok(SlashVerdict::Trust));
    assert_eq!(judge.evaluate(batch, false, false), Ok(SlashVerdict::Continue));
}

#[test]
fn upper_bound_is_looked_at_first() {
    let judge = RelayReputation::new();
    let batch = BatchStats { sent: 3, received: 0 };
    assert_eq!(judge.evaluate(batch, true, true), Ok(SlashVerdict::Slash));
}

#[test]
fn lossy_relay_is_slashed_in_the_end() {
    let mut judge = judge(0.05, 0.05);
    let batch = BatchStats { sent: 100, received: 50 };
    let mut verdict = SlashVerdict::Continue;
    for _ in 0..1000 {
        verdict = evaluate(&mut judge, batch, 0.1).unwrap();
        if verdict != SlashVerdict::Continue {
            break;
        }
    }
    assert_eq!(verdict, SlashVerdict::Slash);
}

#[test]
fn reliable_relay_is_trusted_in_the_end() {
    let mut judge = judge(0.05, 0.05);
    let batch = BatchStats { sent: 100, received: 99 };
    let mut verdict = SlashVerdict::Continue;
    for _ in 0..1000 {
        verdict = evaluate(&mut judge, batch, 0.1).unwrap();
        if verdict != SlashVerdict::Continue {
            break;
        }
    }
    assert_eq!(verdict, SlashVerdict::Trust);
}

#[test]
fn first_lossy_batch_already_crosses_the_upper_bound() {
    let mut judge = judge(0.05, 0.05);
    let verdict = evaluate(&mut judge, BatchStats { sent: 100, received: 50 }, 0.1);
    assert_eq!(verdict, Ok(SlashVerdict::Slash));
    assert!(judge.llr > 17.0 && judge.llr < 18.0);
}

#[test]
fn refused_batch_leaves_the_ratio_alone() {
    let mut judge = judge(0.05, 0.05);
    evaluate(&mut judge, BatchStats { sent: 10, received: 9 }, 0.1).unwrap();
    let before = judge.llr;
    assert_eq!(
        evaluate(&mut judge, BatchStats { sent: 0, received: 0 }, 0.1),
        Err(AeonError::InvalidInput)
    );
    assert_eq!(judge.llr, before);
}

#[test]
fn verdict_does_not_reset_the_test() {
    let mut judge = judge(0.05, 0.05);
    let batch = BatchStats { sent: 100, received: 50 };
    assert_eq!(evaluate(&mut judge, batch, 0.1), Ok(SlashVerdict::Slash));
    let after_first = judge.llr;
    assert_eq!(evaluate(&mut judge, batch, 0.1), Ok(SlashVerdict::Slash));
    assert!(judge.llr > after_first);
}
