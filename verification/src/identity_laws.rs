//! Which instrument an identification reply names, and what follows from it.

use crate::number::{decimal, law_u32_round_trip, lemma_decimal};
use crate::plugins::family::DeviceFamily;
use crate::plugins::registry::{law_spm_serves_spm_models, model_name, recognised};
use crate::reply_laws::{
    blank, field, law_trimming_takes_the_margins, lemma_split_first, lemma_split_none,
};
use crate::text::{
    ascii_lower, ascii_lower_char, digit, lemma_leading, split, trim_start, CharClass,
};
use vstd::prelude::*;

verus! {

/// The model is the second field of the identification reply, white space aside, whatever comes
/// before and after it.
pub proof fn law_model_is_the_second_field(
    maker: Seq<char>,
    before: Seq<char>,
    model: Seq<char>,
    after: Seq<char>,
    rest: Seq<char>,
)
    requires
        forall|k: int| 0 <= k < maker.len() ==> #[trigger] maker[k] != ',',
        blank(before),
        blank(after),
        field(model),
    ensures
        model_name(maker + seq![','] + (before + model + after) + seq![','] + rest) == model,
        model_name(maker + seq![','] + (before + model + after)) == model,
        model_name(maker) == Seq::<char>::empty(),
{
    let padded = before + model + after;
    let long = maker + seq![','] + padded + seq![','] + rest;
    let short = maker + seq![','] + padded;
    law_trimming_takes_the_margins(before, model, after);
    assert forall|k: int| 0 <= k < padded.len() implies #[trigger] padded[k] != ',' by {
        if k < before.len() {
            assert(padded[k] == before[k]);
        } else if k < before.len() + model.len() {
            assert(padded[k] == model[k - before.len()]);
        } else {
            assert(padded[k] == after[k - before.len() - model.len()]);
        }
    }
    assert(long =~= maker + seq![','] + (padded + seq![','] + rest));
    lemma_split_first(maker, ',', padded + seq![','] + rest);
    lemma_split_first(padded, ',', rest);
    lemma_split_first(maker, ',', padded);
    lemma_split_none(padded, ',');
    lemma_split_none(maker, ',');
    assert(split(long, ',')[1] == padded);
    assert(split(short, ',')[1] == padded);
}

/// A model is a power supply if its name begins with the letters S, P and M, large or small, and a
/// bench multimeter otherwise.
pub proof fn law_power_supplies_are_called_spm(
    maker: Seq<char>,
    model: Seq<char>,
    rest: Seq<char>,
)
    requires
        forall|k: int| 0 <= k < maker.len() ==> #[trigger] maker[k] != ',',
        field(model),
    ensures
        ({
            let idn = maker + seq![','] + model + seq![','] + rest;
            let spm = model.len() >= 3 && (model[0] == 'S' || model[0] == 's') && (model[1] == 'P'
                || model[1] == 'p') && (model[2] == 'M' || model[2] == 'm');
            &&& recognised(idn).configured(idn) is Spm == spm
            &&& recognised(idn).configured(idn) is Default == !spm
        }),
{
    let none = Seq::<char>::empty();
    let idn = maker + seq![','] + model + seq![','] + rest;
    law_model_is_the_second_field(maker, none, model, none, rest);
    assert(none + model + none =~= model);
    law_spm_serves_spm_models(idn);
    reveal_strlit("SPM");
    if model.len() >= 3 {
        let head = ascii_lower(model.take(3));
        let spm = ascii_lower("SPM"@);
        assert(spm.len() == 3 && spm[0] == 's' && spm[1] == 'p' && spm[2] == 'm');
        assert(head.len() == 3);
        assert(head[0] == ascii_lower_char(model[0]));
        assert(head[1] == ascii_lower_char(model[1]));
        assert(head[2] == ascii_lower_char(model[2]));
        if head[0] == 's' && head[1] == 'p' && head[2] == 'm' {
            assert(head =~= spm);
        }
    }
}

/// The firmware of an OWON XDM1041 or XDM1241 swaps diode and continuity before version 4.3, and
/// not from that version on, whatever the serial number and the rest of the version are.
pub proof fn law_old_firmware_swaps(
    known: bool,
    model: Seq<char>,
    serial: Seq<char>,
    major: u32,
    minor: u32,
    rest: Seq<char>,
)
    requires
        model == "XDM1041"@ || model == "XDM1241"@,
        forall|k: int| 0 <= k < serial.len() ==> #[trigger] serial[k] != ',',
        rest.len() > 0 ==> rest[0] == '.',
        forall|k: int| 0 <= k < rest.len() ==> #[trigger] rest[k] != ',',
    ensures
        ({
            let version = decimal(major as nat) + seq!['.'] + decimal(minor as nat) + rest;
            let idn = "OWON"@ + seq![','] + model + seq![','] + serial + seq![','] + (seq!['V']
                + version);
            (DeviceFamily::Default { swap_diod_cont: known }).configured(idn) == (
            DeviceFamily::Default { swap_diod_cont: major < 4 || (major == 4 && minor < 3) })
        }),
{
    let a = decimal(major as nat);
    let b = decimal(minor as nat);
    let version = a + seq!['.'] + b + rest;
    let last = seq!['V'] + version;
    let idn = "OWON"@ + seq![','] + model + seq![','] + serial + seq![','] + last;
    lemma_decimal(major as nat);
    lemma_decimal(minor as nat);
    law_u32_round_trip(major);
    law_u32_round_trip(minor);
    reveal_strlit("OWON");
    reveal_strlit("XDM1041");
    reveal_strlit("XDM1241");
    assert forall|k: int| 0 <= k < last.len() implies #[trigger] last[k] != ',' by {
        if 1 <= k < 1 + a.len() {
            assert(last[k] == a[k - 1]);
            assert(digit(a[k - 1]));
        } else if 2 + a.len() <= k < 2 + a.len() + b.len() {
            assert(last[k] == b[k - 2 - a.len()]);
            assert(digit(b[k - 2 - a.len()]));
        } else if k >= 2 + a.len() + b.len() {
            assert(last[k] == rest[k - 2 - a.len() - b.len()]);
        }
    }
    let r3 = serial + seq![','] + last;
    let r2 = model + seq![','] + r3;
    assert(idn =~= "OWON"@ + seq![','] + r2);
    lemma_split_first("OWON"@, ',', r2);
    lemma_split_first(model, ',', r3);
    lemma_split_first(serial, ',', last);
    lemma_split_none(last, ',');
    assert(split(idn, ',') =~= seq!["OWON"@, model, serial, last]);
    assert(last[1] == a[0]);
    assert(digit(a[0]));
    lemma_leading(last, CharClass::Only('V'), 1);
    assert(trim_start(last, CharClass::Only('V')) =~= version);
    assert forall|k: int| 0 <= k < a.len() implies #[trigger] a[k] != '.' by {
        assert(digit(a[k]));
    }
    assert forall|k: int| 0 <= k < b.len() implies #[trigger] b[k] != '.' by {
        assert(digit(b[k]));
    }
    assert(version =~= a + seq!['.'] + (b + rest));
    lemma_split_first(a, '.', b + rest);
    if rest.len() > 0 {
        let tail = rest.skip(1);
        assert(b + rest =~= b + seq!['.'] + tail);
        lemma_split_first(b, '.', tail);
    } else {
        assert(b + rest =~= b);
        lemma_split_none(b, '.');
    }
    assert(split(version, '.')[0] == a);
    assert(split(version, '.')[1] == b);
    assert(split(version, '.').len() >= 2);
}

/// The firmware of any other maker or model tells nothing about that, and a power supply stays one
/// whatever it says.
pub proof fn law_other_firmware_changes_nothing(
    known: bool,
    maker: Seq<char>,
    model: Seq<char>,
    rest: Seq<char>,
)
    requires
        forall|k: int| 0 <= k < maker.len() ==> #[trigger] maker[k] != ',',
        forall|k: int| 0 <= k < model.len() ==> #[trigger] model[k] != ',',
        maker != "OWON"@ || (model != "XDM1041"@ && model != "XDM1241"@),
    ensures
        ({
            let idn = maker + seq![','] + model + seq![','] + rest;
            let family = DeviceFamily::Default { swap_diod_cont: known };
            family.configured(idn) == family && DeviceFamily::Spm.configured(idn)
                == DeviceFamily::Spm
        }),
{
    let idn = maker + seq![','] + model + seq![','] + rest;
    assert(idn =~= maker + seq![','] + (model + seq![','] + rest));
    lemma_split_first(maker, ',', model + seq![','] + rest);
    lemma_split_first(model, ',', rest);
    assert(split(idn, ',')[0] == maker);
    assert(split(idn, ',')[1] == model);
}

} // verus!
