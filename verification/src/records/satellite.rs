use crate::error::{outcome_view, IGCError, IGCErrorView};
use crate::records::util::Time;
use crate::text::{message, texts};
use vstd::prelude::*;

verus! {

/// An F record: the satellites in use from a given time on.
#[derive(Debug, Clone, PartialEq, Eq)]
pub struct Satellite {
    pub time: Time,
    pub satellite_ids: Vec<String>,
}

/// The mathematical value of a [`Satellite`] record.
pub struct SatelliteView {
    pub time: Time,
    pub satellite_ids: Seq<Seq<char>>,
}

impl View for Satellite {
    type V = SatelliteView;

    open spec fn view(&self) -> SatelliteView {
        SatelliteView { time: self.time, satellite_ids: texts(self.satellite_ids@) }
    }
}

/// A text cut into pieces of two characters, from the left. A text of odd
/// length ends in a piece of one character.
pub open spec fn pairs(s: Seq<char>) -> Seq<Seq<char>> {
    Seq::new(
        ((s.len() + 1) / 2) as nat,
        |k: int|
            s.subrange(
                2 * k,
                if 2 * k + 2 <= s.len() {
                    2 * k + 2
                } else {
                    s.len() as int
                },
            ),
    )
}

impl Satellite {
    /// What an F line decodes to: the time in columns 1 to 6, then the ids
    /// of the satellites, two characters each.
    pub open spec fn spec_parse(line: Seq<char>) -> Result<SatelliteView, IGCErrorView> {
        if line.len() < 7 {
            Err(
                IGCErrorView::SatelliteInitError(
                    "'"@ + line + "' is too short to be parsed as a satellite record"@,
                ),
            )
        } else {
            match Time::spec_parse(line.subrange(1, 7)) {
                Err(e) => Err(e),
                Ok(time) => Ok(SatelliteView { time, satellite_ids: pairs(line.skip(7)) }),
            }
        }
    }

    /// Decodes an F line.
    pub fn parse(line: &str) -> (r: Result<Satellite, IGCError>)
        ensures
            outcome_view(r) == Satellite::spec_parse(line@),
            r matches Ok(satellite) ==> satellite.time.is_valid(),
    {
        if line.unicode_len() < 7 {
            return Err(
                IGCError::SatelliteInitError(
                    message("'", line, "' is too short to be parsed as a satellite record"),
                ),
            );
        }
        let time = match Time::parse(line.substring_char(1, 7)) {
            Ok(time) => time,
            Err(e) => {
                return Err(e);
            },
        };
        let ghost rest = line@.skip(7);
        let mut satellite_ids: Vec<String> = Vec::new();
        let mut id = String::new();
        let mut held: u8 = 0;
        let mut ahead: u8 = 7;
        for c in it: line.chars()
            invariant
                it.seq() == line@,
                rest == line@.skip(7),
                line@.len() >= 7,
                held <= 1,
                it.index() < 7 ==> ahead == 7 - it.index() && held == 0 && satellite_ids@.len()
                    == 0 && id@.len() == 0,
                it.index() >= 7 ==> ahead == 0 && it.index() - 7 == 2 * satellite_ids@.len()
                    + held,
                it.index() >= 7 ==> id@ == rest.subrange(
                    2 * (satellite_ids@.len() as int),
                    it.index() - 7,
                ),
                forall|k: int|
                    0 <= k < satellite_ids@.len() ==> (#[trigger] satellite_ids@[k])@ == pairs(
                        rest,
                    )[k],
        {
            if ahead > 0 {
                ahead = ahead - 1;
                proof {
                    if ahead == 0 {
                        assert(id@ =~= rest.subrange(0, 0));
                    }
                }
            } else {
                let ghost at = it.index() - 7;
                let ghost from = 2 * (satellite_ids@.len() as int);
                assert(c == rest[at]);
                id.push(c);
                assert(id@ =~= rest.subrange(from, at + 1));
                if held == 1 {
                    assert(id@ == pairs(rest)[satellite_ids@.len() as int]);
                    satellite_ids.push(id);
                    id = String::new();
                    held = 0;
                    assert(id@ =~= rest.subrange(at + 1, at + 1));
                } else {
                    held = 1;
                }
            }
        }
        if held == 1 {
            assert(id@ =~= pairs(rest)[satellite_ids@.len() as int]);
            satellite_ids.push(id);
        }
        assert(texts(satellite_ids@) =~= pairs(rest));
        Ok(Satellite { time, satellite_ids })
    }
}

} // verus!
