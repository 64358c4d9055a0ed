//! What the commands for a mode have in common: its name, which is also the one that the
//! instrument answers with.

use crate::device_plugin::DeviceModel;
use crate::multimeter::MeterMode;
use crate::plugins::family::DeviceFamily;
use crate::plugins::PsSetting;
use crate::range_laws::plain;
use crate::ranges::offers_auto;
use crate::replies::{function_mode, mode_named};
use crate::tables::{spm6103_table, spm_mode_command, spm_table, xdm_mode_command, xdm_table};
use crate::text::{begins, lemma_leading, trim_start, words, CharClass};
use vstd::prelude::*;

verus! {

/// The name that a mode goes by in commands and replies.
pub open spec fn mode_name(mode: MeterMode) -> Seq<char> {
    match mode {
        MeterMode::Vdc => "VOLT:DC"@,
        MeterMode::Vac => "VOLT:AC"@,
        MeterMode::Adc => "CURR:DC"@,
        MeterMode::Aac => "CURR:AC"@,
        MeterMode::Res => "RES"@,
        MeterMode::Cap => "CAP"@,
        MeterMode::Freq => "FREQ"@,
        MeterMode::Per => "PER"@,
        MeterMode::Diod => "DIOD"@,
        MeterMode::Cont => "CONT"@,
        MeterMode::Temp => "TEMP"@,
    }
}

/// The name of a mode stands for that mode, and the firmware that swaps diode and continuity means
/// the other of the two.
pub proof fn law_names_stand_for_their_modes(mode: MeterMode)
    ensures
        mode_named(mode_name(mode), false) == Some(mode),
        mode_named(mode_name(mode), true) == Some(
            match mode {
                MeterMode::Diod => MeterMode::Cont,
                MeterMode::Cont => MeterMode::Diod,
                other => other,
            },
        ),
{
    reveal_strlit("VOLT");
    reveal_strlit("VOLT:DC");
    reveal_strlit("VOLT:AC");
    reveal_strlit("CURR");
    reveal_strlit("CURR:DC");
    reveal_strlit("CURR:AC");
    reveal_strlit("RES");
    reveal_strlit("CAP");
    reveal_strlit("FREQ");
    reveal_strlit("PER");
    reveal_strlit("TEMP");
    reveal_strlit("DIOD");
    reveal_strlit("CONT");
    match mode {
        MeterMode::Vdc => {
            assert("VOLT:DC"@.len() != "VOLT"@.len());
        },
        MeterMode::Vac => {
            assert("VOLT:AC"@.len() != "VOLT"@.len());
            assert("VOLT:AC"@[5] != "VOLT:DC"@[5]);
        },
        MeterMode::Adc => {
            assert("CURR:DC"@.len() != "VOLT"@.len());
            assert("CURR:DC"@[0] != "VOLT:DC"@[0]);
            assert("CURR:DC"@[0] != "VOLT:AC"@[0]);
            assert("CURR:DC"@.len() != "CURR"@.len());
        },
        MeterMode::Aac => {
            assert("CURR:AC"@.len() != "VOLT"@.len());
            assert("CURR:AC"@[0] != "VOLT:DC"@[0]);
            assert("CURR:AC"@[0] != "VOLT:AC"@[0]);
            assert("CURR:AC"@.len() != "CURR"@.len());
            assert("CURR:AC"@[5] != "CURR:DC"@[5]);
        },
        MeterMode::Res => {
            assert("RES"@.len() != "VOLT"@.len());
            assert("RES"@.len() != "VOLT:DC"@.len());
            assert("RES"@.len() != "VOLT:AC"@.len());
            assert("RES"@.len() != "CURR"@.len());
            assert("RES"@.len() != "CURR:DC"@.len());
            assert("RES"@.len() != "CURR:AC"@.len());
        },
        MeterMode::Cap => {
            assert("CAP"@.len() != "VOLT"@.len());
            assert("CAP"@.len() != "VOLT:DC"@.len());
            assert("CAP"@.len() != "VOLT:AC"@.len());
            assert("CAP"@.len() != "CURR"@.len());
            assert("CAP"@.len() != "CURR:DC"@.len());
            assert("CAP"@.len() != "CURR:AC"@.len());
            assert("CAP"@[0] != "RES"@[0]);
        },
        MeterMode::Freq => {
            assert("FREQ"@[0] != "VOLT"@[0]);
            assert("FREQ"@.len() != "VOLT:DC"@.len());
            assert("FREQ"@.len() != "VOLT:AC"@.len());
            assert("FREQ"@[0] != "CURR"@[0]);
            assert("FREQ"@.len() != "CURR:DC"@.len());
            assert("FREQ"@.len() != "CURR:AC"@.len());
            assert("FREQ"@.len() != "RES"@.len());
            assert("FREQ"@.len() != "CAP"@.len());
        },
        MeterMode::Per => {
            assert("PER"@.len() != "VOLT"@.len());
            assert("PER"@.len() != "VOLT:DC"@.len());
            assert("PER"@.len() != "VOLT:AC"@.len());
            assert("PER"@.len() != "CURR"@.len());
            assert("PER"@.len() != "CURR:DC"@.len());
            assert("PER"@.len() != "CURR:AC"@.len());
            assert("PER"@[0] != "RES"@[0]);
            assert("PER"@[0] != "CAP"@[0]);
            assert("PER"@.len() != "FREQ"@.len());
        },
        MeterMode::Diod => {
            assert("DIOD"@[0] != "VOLT"@[0]);
            assert("DIOD"@.len() != "VOLT:DC"@.len());
            assert("DIOD"@.len() != "VOLT:AC"@.len());
            assert("DIOD"@[0] != "CURR"@[0]);
            assert("DIOD"@.len() != "CURR:DC"@.len());
            assert("DIOD"@.len() != "CURR:AC"@.len());
            assert("DIOD"@.len() != "RES"@.len());
            assert("DIOD"@.len() != "CAP"@.len());
            assert("DIOD"@[0] != "FREQ"@[0]);
            assert("DIOD"@.len() != "PER"@.len());
            assert("DIOD"@[0] != "TEMP"@[0]);
        },
        MeterMode::Cont => {
            assert("CONT"@[0] != "VOLT"@[0]);
            assert("CONT"@.len() != "VOLT:DC"@.len());
            assert("CONT"@.len() != "VOLT:AC"@.len());
            assert("CONT"@[1] != "CURR"@[1]);
            assert("CONT"@.len() != "CURR:DC"@.len());
            assert("CONT"@.len() != "CURR:AC"@.len());
            assert("CONT"@.len() != "RES"@.len());
            assert("CONT"@.len() != "CAP"@.len());
            assert("CONT"@[0] != "FREQ"@[0]);
            assert("CONT"@.len() != "PER"@.len());
            assert("CONT"@[0] != "TEMP"@[0]);
            assert("CONT"@[0] != "DIOD"@[0]);
        },
        MeterMode::Temp => {
            assert("TEMP"@[0] != "VOLT"@[0]);
            assert("TEMP"@.len() != "VOLT:DC"@.len());
            assert("TEMP"@.len() != "VOLT:AC"@.len());
            assert("TEMP"@[0] != "CURR"@[0]);
            assert("TEMP"@.len() != "CURR:DC"@.len());
            assert("TEMP"@.len() != "CURR:AC"@.len());
            assert("TEMP"@.len() != "RES"@.len());
            assert("TEMP"@.len() != "CAP"@.len());
            assert("TEMP"@[0] != "FREQ"@[0]);
            assert("TEMP"@.len() != "PER"@.len());
        },
    }
}

/// A word by itself is the one word of a text.
pub proof fn lemma_one_word(s: Seq<char>)
    requires
        plain(s),
    ensures
        words(s) == seq![s],
{
    lemma_leading(s, CharClass::Space, 0);
    assert(trim_start(s, CharClass::Space) =~= s);
    lemma_leading(s, CharClass::NotSpace, s.len());
    assert(s.take(s.len() as int) =~= s);
    let e = s.skip(s.len() as int);
    assert(e.len() == 0);
    assert(words(e) =~= seq![]);
    assert(words(s) =~= seq![s] + seq![]);
}

/// The names are words.
pub proof fn lemma_names_are_words(mode: MeterMode)
    ensures
        plain(mode_name(mode)),
        forall|k: int| 0 <= k < mode_name(mode).len() ==> mode_name(mode)[k] != ',',
        !begins(mode_name(mode), "VOLT AC "@),
        !begins(mode_name(mode), "CURR AC "@),
        mode_name(mode) != "VOLT AC"@,
        mode_name(mode) != "CURR AC"@,
{
    reveal_strlit("VOLT:DC");
    reveal_strlit("VOLT:AC");
    reveal_strlit("CURR:DC");
    reveal_strlit("CURR:AC");
    reveal_strlit("RES");
    reveal_strlit("CAP");
    reveal_strlit("FREQ");
    reveal_strlit("PER");
    reveal_strlit("DIOD");
    reveal_strlit("CONT");
    reveal_strlit("TEMP");
    reveal_strlit("VOLT AC ");
    reveal_strlit("CURR AC ");
    reveal_strlit("VOLT AC");
    reveal_strlit("CURR AC");
    let n = mode_name(mode);
    assert(n.len() == 7 ==> n[4] == ':');
    assert("VOLT AC"@[4] == ' ' && "CURR AC"@[4] == ' ');
}

/// The name of a mode, as the answer to a function query, tells that mode.
pub proof fn law_names_are_answers(mode: MeterMode, swap: bool)
    ensures
        function_mode(mode_name(mode), swap) == mode_named(mode_name(mode), swap),
        function_mode(mode_name(mode), false) == Some(mode),
{
    law_names_stand_for_their_modes(mode);
    lemma_names_are_words(mode);
    lemma_one_word(mode_name(mode));
}

/// Every command that selects a range of an XDM multimeter names the mode that it was asked for:
/// what stands between `CONF:` and the value is the mode's name, to which temperature adds the kind
/// of probe. The same name asks for the range and switches the mode.
pub proof fn law_xdm_commands_name_their_mode(mode: MeterMode, i: int, swap: bool)
    ensures
        ({
            let family = DeviceFamily::Default { swap_diod_cont: swap };
            let function = if mode == MeterMode::Temp {
                mode_name(mode) + ":RTD"@
            } else {
                mode_name(mode)
            };
            &&& family.range_command(mode, i) is Some == (xdm_table(mode) matches Some(table) && 0
                <= i < table.ranges.len())
            &&& family.range_command(mode, i) matches Some(command) ==> command == "CONF:"@
                + function + " "@ + (xdm_table(mode)->0).ranges[i].1 + "\n"@
            &&& DeviceModel::Xdm1041.range_query(mode) matches Some(query) ==> query == "CONF:"@
                + mode_name(mode) + "?\n"@
            &&& begins(family.mode_command(mode), "CONF:"@ + mode_name(mode))
            &&& function_mode(mode_name(mode), false) == Some(mode)
        }),
{
    law_names_are_answers(mode, false);
    lemma_xdm_spelling(mode);
    if let Some(table) = xdm_table(mode) {
        if 0 <= i < table.ranges.len() {
            let family = DeviceFamily::Default { swap_diod_cont: swap };
            let function = if mode == MeterMode::Temp {
                mode_name(mode) + ":RTD"@
            } else {
                mode_name(mode)
            };
            assert(family.range_command(mode, i)->0 =~= "CONF:"@ + function + " "@
                + table.ranges[i].1 + "\n"@);
        }
    }
}

/// How the commands of the XDM multimeters are spelled.
proof fn lemma_xdm_spelling(mode: MeterMode)
    ensures
        xdm_table(mode) matches Some(table) ==> table.prefix == "CONF:"@ + (if mode
            == MeterMode::Temp {
            mode_name(mode) + ":RTD"@
        } else {
            mode_name(mode)
        }) + " "@,
        DeviceModel::Xdm1041.range_query(mode) matches Some(query) ==> query == "CONF:"@
            + mode_name(mode) + "?\n"@,
        begins(xdm_mode_command(mode), "CONF:"@ + mode_name(mode)),
{
    reveal_strlit("CONF:");
    reveal_strlit(":RTD");
    reveal_strlit(" ");
    reveal_strlit("?\n");
    let name = mode_name(mode);
    match mode {
        MeterMode::Vdc => {
            reveal_strlit("VOLT:DC");
            reveal_strlit("CONF:VOLT:DC AUTO\n");
            assert("CONF:VOLT:DC AUTO\n"@.subrange(0, 12) =~= "CONF:"@ + name);
            reveal_strlit("CONF:VOLT:DC ");
            reveal_strlit("CONF:VOLT:DC?\n");
            assert("CONF:VOLT:DC "@ =~= "CONF:"@ + name + " "@);
            assert("CONF:VOLT:DC?\n"@ =~= "CONF:"@ + name + "?\n"@);
        },
        MeterMode::Vac => {
            reveal_strlit("VOLT:AC");
            reveal_strlit("CONF:VOLT:AC AUTO\n");
            assert("CONF:VOLT:AC AUTO\n"@.subrange(0, 12) =~= "CONF:"@ + name);
            reveal_strlit("CONF:VOLT:AC ");
            reveal_strlit("CONF:VOLT:AC?\n");
            assert("CONF:VOLT:AC "@ =~= "CONF:"@ + name + " "@);
            assert("CONF:VOLT:AC?\n"@ =~= "CONF:"@ + name + "?\n"@);
        },
        MeterMode::Adc => {
            reveal_strlit("CURR:DC");
            reveal_strlit("CONF:CURR:DC\n");
            assert("CONF:CURR:DC\n"@.subrange(0, 12) =~= "CONF:"@ + name);
            reveal_strlit("CONF:CURR:DC ");
            reveal_strlit("CONF:CURR:DC?\n");
            assert("CONF:CURR:DC "@ =~= "CONF:"@ + name + " "@);
            assert("CONF:CURR:DC?\n"@ =~= "CONF:"@ + name + "?\n"@);
        },
        MeterMode::Aac => {
            reveal_strlit("CURR:AC");
            reveal_strlit("CONF:CURR:AC\n");
            assert("CONF:CURR:AC\n"@.subrange(0, 12) =~= "CONF:"@ + name);
            reveal_strlit("CONF:CURR:AC ");
            reveal_strlit("CONF:CURR:AC?\n");
            assert("CONF:CURR:AC "@ =~= "CONF:"@ + name + " "@);
            assert("CONF:CURR:AC?\n"@ =~= "CONF:"@ + name + "?\n"@);
        },
        MeterMode::Res => {
            reveal_strlit("RES");
            reveal_strlit("CONF:RES AUTO\n");
            assert("CONF:RES AUTO\n"@.subrange(0, 8) =~= "CONF:"@ + name);
            reveal_strlit("CONF:RES ");
            reveal_strlit("CONF:RES?\n");
            assert("CONF:RES "@ =~= "CONF:"@ + name + " "@);
            assert("CONF:RES?\n"@ =~= "CONF:"@ + name + "?\n"@);
        },
        MeterMode::Cap => {
            reveal_strlit("CAP");
            reveal_strlit("CONF:CAP AUTO\n");
            assert("CONF:CAP AUTO\n"@.subrange(0, 8) =~= "CONF:"@ + name);
            reveal_strlit("CONF:CAP ");
            reveal_strlit("CONF:CAP?\n");
            assert("CONF:CAP "@ =~= "CONF:"@ + name + " "@);
            assert("CONF:CAP?\n"@ =~= "CONF:"@ + name + "?\n"@);
        },
        MeterMode::Freq => {
            reveal_strlit("FREQ");
            reveal_strlit("CONF:FREQ\n");
            assert("CONF:FREQ\n"@.subrange(0, 9) =~= "CONF:"@ + name);
        },
        MeterMode::Per => {
            reveal_strlit("PER");
            reveal_strlit("CONF:PER\n");
            assert("CONF:PER\n"@.subrange(0, 8) =~= "CONF:"@ + name);
        },
        MeterMode::Diod => {
            reveal_strlit("DIOD");
            reveal_strlit("CONF:DIOD\n");
            assert("CONF:DIOD\n"@.subrange(0, 9) =~= "CONF:"@ + name);
        },
        MeterMode::Cont => {
            reveal_strlit("CONT");
            reveal_strlit("CONF:CONT\n");
            assert("CONF:CONT\n"@.subrange(0, 9) =~= "CONF:"@ + name);
        },
        MeterMode::Temp => {
            reveal_strlit("TEMP");
            reveal_strlit("CONF:TEMP:RTD PT100\n");
            assert("CONF:TEMP:RTD PT100\n"@.subrange(0, 9) =~= "CONF:"@ + name);
            reveal_strlit("CONF:TEMP:RTD ");
            reveal_strlit("CONF:TEMP?\n");
            assert("CONF:TEMP:RTD "@ =~= "CONF:"@ + (name + ":RTD"@) + " "@);
            assert("CONF:TEMP?\n"@ =~= "CONF:"@ + name + "?\n"@);
        },
    }
}

/// Switching an XDM multimeter to a mode selects the first range of that mode where that is
/// automatic ranging or a probe; where there is neither, the command names the mode alone.
pub proof fn law_xdm_mode_command_selects_the_first_range(mode: MeterMode, swap: bool)
    ensures
        ({
            let family = DeviceFamily::Default { swap_diod_cont: swap };
            if mode == MeterMode::Temp || (xdm_table(mode) matches Some(table) && offers_auto(
                table.ranges,
            )) {
                Some(family.mode_command(mode)) == family.range_command(mode, 0)
            } else {
                family.mode_command(mode) == "CONF:"@ + mode_name(mode) + "\n"@
            }
        }),
{
    reveal_strlit("\n");
    reveal_strlit("CONF:");
    match mode {
        MeterMode::Vdc => {
            reveal_strlit("CONF:VOLT:DC AUTO\n");
            reveal_strlit("CONF:VOLT:DC ");
            reveal_strlit("AUTO");
            assert("CONF:VOLT:DC AUTO\n"@ =~= "CONF:VOLT:DC "@ + "AUTO"@ + "\n"@);
        },
        MeterMode::Vac => {
            reveal_strlit("CONF:VOLT:AC AUTO\n");
            reveal_strlit("CONF:VOLT:AC ");
            reveal_strlit("AUTO");
            assert("CONF:VOLT:AC AUTO\n"@ =~= "CONF:VOLT:AC "@ + "AUTO"@ + "\n"@);
        },
        MeterMode::Adc => {
            reveal_strlit("CONF:CURR:DC\n");
            reveal_strlit("auto");
            reveal_strlit("500uA");
            assert("auto"@.len() != "500uA"@.len());
            reveal_strlit("CURR:DC");
            assert("CONF:CURR:DC\n"@ =~= "CONF:"@ + "CURR:DC"@ + "\n"@);
        },
        MeterMode::Aac => {
            reveal_strlit("CONF:CURR:AC\n");
            reveal_strlit("auto");
            reveal_strlit("500uA");
            assert("auto"@.len() != "500uA"@.len());
            reveal_strlit("CURR:AC");
            assert("CONF:CURR:AC\n"@ =~= "CONF:"@ + "CURR:AC"@ + "\n"@);
        },
        MeterMode::Res => {
            reveal_strlit("CONF:RES AUTO\n");
            reveal_strlit("CONF:RES ");
            reveal_strlit("AUTO");
            assert("CONF:RES AUTO\n"@ =~= "CONF:RES "@ + "AUTO"@ + "\n"@);
        },
        MeterMode::Cap => {
            reveal_strlit("CONF:CAP AUTO\n");
            reveal_strlit("CONF:CAP ");
            reveal_strlit("AUTO");
            assert("CONF:CAP AUTO\n"@ =~= "CONF:CAP "@ + "AUTO"@ + "\n"@);
        },
        MeterMode::Freq => {
            reveal_strlit("CONF:FREQ\n");
            reveal_strlit("FREQ");
            assert("CONF:FREQ\n"@ =~= "CONF:"@ + "FREQ"@ + "\n"@);
        },
        MeterMode::Per => {
            reveal_strlit("CONF:PER\n");
            reveal_strlit("PER");
            assert("CONF:PER\n"@ =~= "CONF:"@ + "PER"@ + "\n"@);
        },
        MeterMode::Diod => {
            reveal_strlit("CONF:DIOD\n");
            reveal_strlit("DIOD");
            assert("CONF:DIOD\n"@ =~= "CONF:"@ + "DIOD"@ + "\n"@);
        },
        MeterMode::Cont => {
            reveal_strlit("CONF:CONT\n");
            reveal_strlit("CONT");
            assert("CONF:CONT\n"@ =~= "CONF:"@ + "CONT"@ + "\n"@);
        },
        MeterMode::Temp => {
            reveal_strlit("CONF:TEMP:RTD PT100\n");
            reveal_strlit("CONF:TEMP:RTD ");
            reveal_strlit("PT100");
            assert("CONF:TEMP:RTD PT100\n"@ =~= "CONF:TEMP:RTD "@ + "PT100"@ + "\n"@);
        },
    }
}

/// Every command for the meter of an SPM power supply names the mode that it was asked for: the one
/// that switches to it, those that turn its automatic ranging on and off, the one that selects a
/// range, and the query for it. That name is the one that its replies begin with.
pub proof fn law_spm_commands_name_their_mode(mode: MeterMode)
    ensures
        spm_mode_command(mode) == "FUNC:"@ + mode_name(mode) + "\n"@,
        spm_table(mode) matches Some(table) ==> {
            &&& table.prefix == "SENS:"@ + mode_name(mode) + ":RANG "@
            &&& table.auto_on matches Some(on) ==> on == mode_name(mode) + ":RANG:AUTO 1\n"@
            &&& table.auto_off matches Some(off) ==> off == mode_name(mode) + ":RANG:AUTO 0\n"@
            &&& table.auto_on is Some == table.auto_off is Some
            &&& table.auto_on is Some ==> offers_auto(table.ranges)
        },
        spm6103_table(mode) matches Some(table) ==> {
            &&& table.prefix == "SENS:"@ + mode_name(mode) + ":RANG "@
            &&& table.auto_on matches Some(on) ==> on == mode_name(mode) + ":RANG:AUTO ON\n"@
            &&& table.auto_off matches Some(off) ==> off == mode_name(mode) + ":RANG:AUTO OFF\n"@
            &&& table.auto_on is Some == table.auto_off is Some
            &&& table.auto_on is Some ==> offers_auto(table.ranges)
        },
        DeviceModel::Spm6103.range_query(mode) matches Some(query) ==> query == mode_name(mode)
            + ":RANG?\n"@,
        mode_named(mode_name(mode), false) == Some(mode),
{
    law_names_stand_for_their_modes(mode);
    reveal_strlit("FUNC:");
    reveal_strlit("SENS:");
    reveal_strlit(":RANG ");
    reveal_strlit(":RANG?\n");
    reveal_strlit("\n");
    reveal_strlit(":RANG:AUTO 1\n");
    reveal_strlit(":RANG:AUTO 0\n");
    reveal_strlit(":RANG:AUTO ON\n");
    reveal_strlit(":RANG:AUTO OFF\n");
    let name = mode_name(mode);
    match mode {
        MeterMode::Vdc => {
            reveal_strlit("VOLT:DC");
            reveal_strlit("FUNC:VOLT:DC\n");
            assert("FUNC:VOLT:DC\n"@ =~= "FUNC:"@ + name + "\n"@);
            reveal_strlit("SENS:VOLT:DC:RANG ");
            assert("SENS:VOLT:DC:RANG "@ =~= "SENS:"@ + name + ":RANG "@);
            reveal_strlit("VOLT:DC:RANG?\n");
            assert("VOLT:DC:RANG?\n"@ =~= name + ":RANG?\n"@);
            reveal_strlit("VOLT:DC:RANG:AUTO 1\n");
            assert("VOLT:DC:RANG:AUTO 1\n"@ =~= name + ":RANG:AUTO 1\n"@);
            reveal_strlit("VOLT:DC:RANG:AUTO 0\n");
            assert("VOLT:DC:RANG:AUTO 0\n"@ =~= name + ":RANG:AUTO 0\n"@);
            reveal_strlit("VOLT:DC:RANG:AUTO ON\n");
            assert("VOLT:DC:RANG:AUTO ON\n"@ =~= name + ":RANG:AUTO ON\n"@);
            reveal_strlit("VOLT:DC:RANG:AUTO OFF\n");
            assert("VOLT:DC:RANG:AUTO OFF\n"@ =~= name + ":RANG:AUTO OFF\n"@);
        },
        MeterMode::Vac => {
            reveal_strlit("VOLT:AC");
            reveal_strlit("FUNC:VOLT:AC\n");
            assert("FUNC:VOLT:AC\n"@ =~= "FUNC:"@ + name + "\n"@);
            reveal_strlit("SENS:VOLT:AC:RANG ");
            assert("SENS:VOLT:AC:RANG "@ =~= "SENS:"@ + name + ":RANG "@);
            reveal_strlit("VOLT:AC:RANG?\n");
            assert("VOLT:AC:RANG?\n"@ =~= name + ":RANG?\n"@);
            reveal_strlit("VOLT:AC:RANG:AUTO 1\n");
            assert("VOLT:AC:RANG:AUTO 1\n"@ =~= name + ":RANG:AUTO 1\n"@);
            reveal_strlit("VOLT:AC:RANG:AUTO 0\n");
            assert("VOLT:AC:RANG:AUTO 0\n"@ =~= name + ":RANG:AUTO 0\n"@);
            reveal_strlit("VOLT:AC:RANG:AUTO ON\n");
            assert("VOLT:AC:RANG:AUTO ON\n"@ =~= name + ":RANG:AUTO ON\n"@);
            reveal_strlit("VOLT:AC:RANG:AUTO OFF\n");
            assert("VOLT:AC:RANG:AUTO OFF\n"@ =~= name + ":RANG:AUTO OFF\n"@);
        },
        MeterMode::Adc => {
            reveal_strlit("CURR:DC");
            reveal_strlit("FUNC:CURR:DC\n");
            assert("FUNC:CURR:DC\n"@ =~= "FUNC:"@ + name + "\n"@);
            reveal_strlit("SENS:CURR:DC:RANG ");
            assert("SENS:CURR:DC:RANG "@ =~= "SENS:"@ + name + ":RANG "@);
            reveal_strlit("CURR:DC:RANG?\n");
            assert("CURR:DC:RANG?\n"@ =~= name + ":RANG?\n"@);
        },
        MeterMode::Aac => {
            reveal_strlit("CURR:AC");
            reveal_strlit("FUNC:CURR:AC\n");
            assert("FUNC:CURR:AC\n"@ =~= "FUNC:"@ + name + "\n"@);
            reveal_strlit("SENS:CURR:AC:RANG ");
            assert("SENS:CURR:AC:RANG "@ =~= "SENS:"@ + name + ":RANG "@);
            reveal_strlit("CURR:AC:RANG?\n");
            assert("CURR:AC:RANG?\n"@ =~= name + ":RANG?\n"@);
        },
        MeterMode::Res => {
            reveal_strlit("RES");
            reveal_strlit("FUNC:RES\n");
            assert("FUNC:RES\n"@ =~= "FUNC:"@ + name + "\n"@);
            reveal_strlit("SENS:RES:RANG ");
            assert("SENS:RES:RANG "@ =~= "SENS:"@ + name + ":RANG "@);
            reveal_strlit("RES:RANG?\n");
            assert("RES:RANG?\n"@ =~= name + ":RANG?\n"@);
            reveal_strlit("RES:RANG:AUTO 1\n");
            assert("RES:RANG:AUTO 1\n"@ =~= name + ":RANG:AUTO 1\n"@);
            reveal_strlit("RES:RANG:AUTO 0\n");
            assert("RES:RANG:AUTO 0\n"@ =~= name + ":RANG:AUTO 0\n"@);
            reveal_strlit("RES:RANG:AUTO ON\n");
            assert("RES:RANG:AUTO ON\n"@ =~= name + ":RANG:AUTO ON\n"@);
            reveal_strlit("RES:RANG:AUTO OFF\n");
            assert("RES:RANG:AUTO OFF\n"@ =~= name + ":RANG:AUTO OFF\n"@);
        },
        MeterMode::Cap => {
            reveal_strlit("CAP");
            reveal_strlit("FUNC:CAP\n");
            assert("FUNC:CAP\n"@ =~= "FUNC:"@ + name + "\n"@);
            reveal_strlit("SENS:CAP:RANG ");
            assert("SENS:CAP:RANG "@ =~= "SENS:"@ + name + ":RANG "@);
            reveal_strlit("CAP:RANG?\n");
            assert("CAP:RANG?\n"@ =~= name + ":RANG?\n"@);
        },
        MeterMode::Freq => {
            reveal_strlit("FREQ");
            reveal_strlit("FUNC:FREQ\n");
            assert("FUNC:FREQ\n"@ =~= "FUNC:"@ + name + "\n"@);
        },
        MeterMode::Per => {
            reveal_strlit("PER");
            reveal_strlit("FUNC:PER\n");
            assert("FUNC:PER\n"@ =~= "FUNC:"@ + name + "\n"@);
        },
        MeterMode::Diod => {
            reveal_strlit("DIOD");
            reveal_strlit("FUNC:DIOD\n");
            assert("FUNC:DIOD\n"@ =~= "FUNC:"@ + name + "\n"@);
        },
        MeterMode::Cont => {
            reveal_strlit("CONT");
            reveal_strlit("FUNC:CONT\n");
            assert("FUNC:CONT\n"@ =~= "FUNC:"@ + name + "\n"@);
        },
        MeterMode::Temp => {
            reveal_strlit("TEMP");
            reveal_strlit("FUNC:TEMP\n");
            assert("FUNC:TEMP\n"@ =~= "FUNC:"@ + name + "\n"@);
        },
    }
}

/// Automatic ranging of an SPM power supply is turned on by itself, and turned off before a fixed
/// range is selected; where there is nothing to turn off, the range is selected at once.
pub proof fn law_spm_range_commands(mode: MeterMode, i: int)
    requires
        spm_table(mode) matches Some(table) && 0 <= i < table.ranges.len(),
    ensures
        ({
            let (name, value) = (spm_table(mode)->0).ranges[i];
            let switched = mode == MeterMode::Vdc || mode == MeterMode::Vac || mode
                == MeterMode::Res;
            let selected = "SENS:"@ + mode_name(mode) + ":RANG "@ + value + "\n"@;
            DeviceFamily::Spm.range_command(mode, i) == Some(
                if name == "auto"@ && switched {
                    mode_name(mode) + ":RANG:AUTO 1\n"@
                } else if switched {
                    mode_name(mode) + ":RANG:AUTO 0\n"@ + selected
                } else {
                    selected
                },
            )
        }),
{
    law_spm_commands_name_their_mode(mode);
    reveal_strlit("auto");
    reveal_strlit("200mA");
    reveal_strlit("10A");
    assert("auto"@.len() != "200mA"@.len());
    assert("auto"@.len() != "10A"@.len());
}

// ---------------------------------------------------------------------------------------------
// Settings of the power supply
// ---------------------------------------------------------------------------------------------

/// The name that a setting of the power supply goes by.
pub open spec fn setting_name(setting: PsSetting) -> Seq<char> {
    match setting {
        PsSetting::Voltage => "VOLT"@,
        PsSetting::Current => "CURR"@,
        PsSetting::Ovp => "VOLT:LIM"@,
        PsSetting::Ocp => "CURR:LIM"@,
    }
}

/// A setting of the power supply is changed and queried under one name, and different settings go
/// by different names: no query is answered with the amount of another setting.
pub proof fn law_settings_keep_their_names(setting: PsSetting, other: PsSetting, amount: Seq<char>)
    ensures
        DeviceFamily::Spm.ps_set(setting, amount) == Some(
            setting_name(setting) + " "@ + amount + "\n"@,
        ),
        DeviceFamily::Spm.ps_query(setting) == Some(setting_name(setting) + "?\n"@),
        setting != other ==> setting_name(setting) != setting_name(other),
        setting != other ==> DeviceFamily::Spm.ps_query(setting) != DeviceFamily::Spm.ps_query(
            other,
        ),
{
    reveal_strlit("VOLT");
    reveal_strlit("CURR");
    reveal_strlit("VOLT:LIM");
    reveal_strlit("CURR:LIM");
    reveal_strlit("VOLT ");
    reveal_strlit("CURR ");
    reveal_strlit("VOLT:LIM ");
    reveal_strlit("CURR:LIM ");
    reveal_strlit("VOLT?\n");
    reveal_strlit("CURR?\n");
    reveal_strlit("VOLT:LIM?\n");
    reveal_strlit("CURR:LIM?\n");
    reveal_strlit(" ");
    reveal_strlit("?\n");
    reveal_strlit("\n");
    let n = setting_name(setting);
    assert(DeviceFamily::Spm.ps_set(setting, amount)->0 =~= n + " "@ + amount + "\n"@);
    assert(DeviceFamily::Spm.ps_query(setting)->0 =~= n + "?\n"@);
    let q = DeviceFamily::Spm.ps_query(setting)->0;
    let r = DeviceFamily::Spm.ps_query(other)->0;
    let m = setting_name(other);
    if setting != other {
        assert(n[0] != m[0] || n.len() != m.len());
        assert(q[0] != r[0] || q.len() != r.len());
    }
}

} // verus!
