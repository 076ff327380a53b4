//! A plain, reversible encoding of the world state into a sequence of
//! machine words. The in-memory model is plain data with no hidden
//! derived state, so encoding and restoring a world preserves entity
//! order and every field value exactly; the round-trip law below proves
//! it.

use vstd::prelude::*;
use crate::entity::{Hacker, HackerMood, HackerSitState};
use crate::world::{GameState, WeatherState};

verus! {

pub open spec fn mood_tag(m: HackerMood) -> u64 {
    match m {
        HackerMood::Happy => 0,
        HackerMood::Sad => 1,
    }
}

pub open spec fn sit_tag(s: HackerSitState) -> u64 {
    match s {
        HackerSitState::Sitting => 0,
        HackerSitState::Standing => 1,
    }
}

pub open spec fn weather_tag(w: WeatherState) -> u64 {
    match w {
        WeatherState::Clear => 0,
        WeatherState::Rain => 1,
        WeatherState::Snow => 2,
        WeatherState::Hail => 3,
    }
}

/// The weather a valid tag stands for.
pub open spec fn weather_of_tag(t: u64) -> WeatherState
    recommends
        t <= 3,
{
    if t == 0 {
        WeatherState::Clear
    } else if t == 1 {
        WeatherState::Rain
    } else if t == 2 {
        WeatherState::Snow
    } else {
        WeatherState::Hail
    }
}

/// One entity as five words: mood tag, hunger, sitting tag, column, row.
pub open spec fn encode_hacker(h: Hacker) -> Seq<u64> {
    seq![
        mood_tag(h.mood),
        h.hunger as u64,
        sit_tag(h.sit_state),
        h.position.0 as u64,
        h.position.1 as u64,
    ]
}

/// The entity five words stand for, when every word is in range.
pub open spec fn decode_hacker(d: Seq<u64>) -> Option<Hacker>
    recommends
        d.len() == 5,
{
    if d[0] <= 1 && d[1] <= u32::MAX && d[2] <= 1 && d[3] <= u16::MAX && d[4] <= u16::MAX {
        Some(
            Hacker {
                mood: if d[0] == 0 {
                    HackerMood::Happy
                } else {
                    HackerMood::Sad
                },
                hunger: d[1] as u32,
                sit_state: if d[2] == 0 {
                    HackerSitState::Sitting
                } else {
                    HackerSitState::Standing
                },
                position: (d[3] as u16, d[4] as u16),
            },
        )
    } else {
        None
    }
}

/// The entity collection, in order, five words per entity.
pub open spec fn encode_hackers(hs: Seq<Hacker>) -> Seq<u64>
    decreases hs.len(),
{
    if hs.len() == 0 {
        Seq::empty()
    } else {
        encode_hacker(hs[0]) + encode_hackers(hs.drop_first())
    }
}

/// The entity collection a word sequence stands for: five words per
/// entity, consumed exactly, every word in range.
pub open spec fn decode_hackers(d: Seq<u64>) -> Option<Seq<Hacker>>
    decreases d.len(),
{
    if d.len() == 0 {
        Some(Seq::empty())
    } else if d.len() < 5 {
        None
    } else {
        match decode_hacker(d.take(5)) {
            Some(h) => match decode_hackers(d.skip(5)) {
                Some(rest) => Some(seq![h] + rest),
                None => None,
            },
            None => None,
        }
    }
}

/// The whole world as words: time, money, weather tag, then the
/// entities.
pub open spec fn encode_state_seq(
    hackers: Seq<Hacker>,
    time: u32,
    money: u32,
    weather: WeatherState,
) -> Seq<u64> {
    seq![time as u64, money as u64, weather_tag(weather)] + encode_hackers(hackers)
}

/// The world a word sequence stands for, when it is a valid encoding.
pub open spec fn decode_state_seq(d: Seq<u64>) -> Option<(Seq<Hacker>, u32, u32, WeatherState)> {
    if d.len() < 3 {
        None
    } else if d[0] <= u32::MAX && d[1] <= u32::MAX && d[2] <= 3 {
        match decode_hackers(d.skip(3)) {
            Some(hs) => Some((hs, d[0] as u32, d[1] as u32, weather_of_tag(d[2]))),
            None => None,
        }
    } else {
        None
    }
}

/// Appending one entity to the collection appends its five words to the
/// encoding.
pub proof fn lemma_encode_hackers_push(hs: Seq<Hacker>, h: Hacker)
    ensures
        encode_hackers(hs.push(h)) == encode_hackers(hs) + encode_hacker(h),
    decreases hs.len(),
{
    if hs.len() == 0 {
        assert(hs.push(h)[0] == h);
        assert(hs.push(h).drop_first() =~= Seq::<Hacker>::empty());
        assert(encode_hackers(Seq::<Hacker>::empty()) =~= Seq::<u64>::empty());
        assert(encode_hacker(h) + Seq::<u64>::empty() =~= encode_hacker(h));
        assert(Seq::<u64>::empty() + encode_hacker(h) =~= encode_hacker(h));
    } else {
        lemma_encode_hackers_push(hs.drop_first(), h);
        assert(hs.push(h)[0] == hs[0]);
        assert(hs.push(h).drop_first() =~= hs.drop_first().push(h));
        assert(encode_hacker(hs[0]) + (encode_hackers(hs.drop_first()) + encode_hacker(h)) =~= (
        encode_hacker(hs[0]) + encode_hackers(hs.drop_first())) + encode_hacker(h));
    }
}

/// Decoding one encoded entity gives that entity back.
proof fn lemma_hacker_round_trip(h: Hacker)
    ensures
        decode_hacker(encode_hacker(h)) == Some(h),
{
}

/// Decoding an encoded collection gives the collection back, in order.
pub proof fn lemma_hackers_round_trip(hs: Seq<Hacker>)
    ensures
        decode_hackers(encode_hackers(hs)) == Some(hs),
    decreases hs.len(),
{
    if hs.len() == 0 {
        assert(Some(Seq::<Hacker>::empty()) == Some(hs)) by {
            assert(hs =~= Seq::<Hacker>::empty());
        }
    } else {
        let e = encode_hackers(hs);
        lemma_hacker_round_trip(hs[0]);
        lemma_hackers_round_trip(hs.drop_first());
        assert(e.take(5) =~= encode_hacker(hs[0]));
        assert(e.skip(5) =~= encode_hackers(hs.drop_first()));
        assert(seq![hs[0]] + hs.drop_first() =~= hs);
    }
}

/// Law (round trip): restoring an encoded world yields the world
/// exactly — entity order and every field value are preserved.
pub proof fn lemma_state_round_trip(
    hackers: Seq<Hacker>,
    time: u32,
    money: u32,
    weather: WeatherState,
)
    ensures
        decode_state_seq(encode_state_seq(hackers, time, money, weather)) == Some(
            (hackers, time, money, weather),
        ),
{
    let e = encode_state_seq(hackers, time, money, weather);
    lemma_hackers_round_trip(hackers);
    assert(e.skip(3) =~= encode_hackers(hackers));
    assert(weather_of_tag(weather_tag(weather)) == weather);
}

/// Encodes the world into words: time, money, weather tag, then five
/// words per entity in world order.
pub fn encode_state(s: &GameState) -> (out: Vec<u64>)
    ensures
        out@ == encode_state_seq(s.hackers@, s.time, s.money, s.weather),
{
    let ghost header = seq![s.time as u64, s.money as u64, weather_tag(s.weather)];
    let mut out: Vec<u64> = Vec::new();
    out.push(s.time as u64);
    out.push(s.money as u64);
    out.push(
        match s.weather {
            WeatherState::Clear => 0u64,
            WeatherState::Rain => 1u64,
            WeatherState::Snow => 2u64,
            WeatherState::Hail => 3u64,
        },
    );
    proof {
        assert(out@ =~= header + encode_hackers(s.hackers@.take(0)));
    }
    let mut i: usize = 0;
    while i < s.hackers.len()
        invariant
            i <= s.hackers@.len(),
            header == seq![s.time as u64, s.money as u64, weather_tag(s.weather)],
            out@ == header + encode_hackers(s.hackers@.take(i as int)),
        decreases s.hackers@.len() - i,
    {
        let hx = s.hackers[i];
        out.push(
            match hx.mood {
                HackerMood::Happy => 0u64,
                HackerMood::Sad => 1u64,
            },
        );
        out.push(hx.hunger as u64);
        out.push(
            match hx.sit_state {
                HackerSitState::Sitting => 0u64,
                HackerSitState::Standing => 1u64,
            },
        );
        out.push(hx.position.0 as u64);
        out.push(hx.position.1 as u64);
        proof {
            lemma_encode_hackers_push(s.hackers@.take(i as int), hx);
            assert(s.hackers@.take(i as int + 1) =~= s.hackers@.take(i as int).push(hx));
            assert(out@ =~= header + encode_hackers(s.hackers@.take(i as int + 1)));
        }
        i += 1;
    }
    proof {
        assert(s.hackers@.take(s.hackers@.len() as int) =~= s.hackers@);
    }
    out
}

/// Restores a world from words. Gives the world back exactly when the
/// words are a valid encoding, and nothing on any other input.
pub fn decode_state(data: &Vec<u64>) -> (r: Option<GameState>)
    ensures
        match decode_state_seq(data@) {
            Some(t) => r is Some && r.unwrap().hackers@ == t.0 && r.unwrap().time == t.1
                && r.unwrap().money == t.2 && r.unwrap().weather == t.3,
            None => r is None,
        },
{
    if data.len() < 3 {
        return None;
    }
    let time_v = data[0];
    let money_v = data[1];
    let wtag = data[2];
    if time_v > u32::MAX as u64 || money_v > u32::MAX as u64 {
        return None;
    }
    let weather = match wtag {
        0u64 => WeatherState::Clear,
        1u64 => WeatherState::Rain,
        2u64 => WeatherState::Snow,
        3u64 => WeatherState::Hail,
        _ => {
            return None;
        },
    };
    let mut hackers: Vec<Hacker> = Vec::new();
    let mut idx: usize = 3;
    while idx < data.len()
        invariant
            3 <= idx <= data@.len(),
            decode_hackers(data@.skip(3)) == (match decode_hackers(data@.skip(idx as int)) {
                Some(rest) => Some(hackers@ + rest),
                None => None::<Seq<Hacker>>,
            }),
        decreases data@.len() - idx,
    {
        let ghost rem = data@.skip(idx as int);
        if data.len() - idx < 5 {
            return None;
        }
        let m = data[idx];
        let hu = data[idx + 1];
        let st = data[idx + 2];
        let p0 = data[idx + 3];
        let p1 = data[idx + 4];
        proof {
            assert(rem.take(5) =~= seq![m, hu, st, p0, p1]);
        }
        if !(m <= 1 && hu <= u32::MAX as u64 && st <= 1 && p0 <= u16::MAX as u64 && p1 <= u16::MAX
            as u64) {
            return None;
        }
        let h = Hacker {
            mood: if m == 0 {
                HackerMood::Happy
            } else {
                HackerMood::Sad
            },
            hunger: hu as u32,
            sit_state: if st == 0 {
                HackerSitState::Sitting
            } else {
                HackerSitState::Standing
            },
            position: (p0 as u16, p1 as u16),
        };
        proof {
            assert(decode_hacker(rem.take(5)) == Some(h));
            assert(rem.skip(5) =~= data@.skip(idx as int + 5));
            if decode_hackers(data@.skip(idx as int + 5)) is Some {
                let rest = decode_hackers(data@.skip(idx as int + 5)).unwrap();
                assert(hackers@ + (seq![h] + rest) =~= (hackers@ + seq![h]) + rest);
                assert(hackers@ + seq![h] =~= hackers@.push(h));
            }
        }
        hackers.push(h);
        idx = idx + 5;
    }
    proof {
        assert(data@.skip(idx as int) =~= Seq::<u64>::empty());
        assert(hackers@ + Seq::<Hacker>::empty() =~= hackers@);
    }
    Some(GameState { hackers, time: time_v as u32, money: money_v as u32, weather })
}

} // verus!
