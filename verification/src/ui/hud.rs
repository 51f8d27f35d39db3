//! HUD (heads-up display) settings and the gear indicator text.

use vstd::prelude::*;

verus! {

/// Speed unit shown by the speedometer
#[derive(Debug, Clone, Copy, PartialEq, Eq, Structural)]
pub enum SpeedUnit {
    Kmh,
    Mph,
}

/// The character of decimal digit `d`.
pub open spec fn digit_char(d: nat) -> char {
    if d == 0 {
        '0'
    } else if d == 1 {
        '1'
    } else if d == 2 {
        '2'
    } else if d == 3 {
        '3'
    } else if d == 4 {
        '4'
    } else if d == 5 {
        '5'
    } else if d == 6 {
        '6'
    } else if d == 7 {
        '7'
    } else if d == 8 {
        '8'
    } else {
        '9'
    }
}

/// The decimal digits of `n`, most significant first, without leading zeros.
pub open spec fn decimal_digits(n: nat) -> Seq<char>
    decreases n,
{
    if n < 10 {
        seq![digit_char(n)]
    } else {
        decimal_digits(n / 10).push(digit_char(n % 10))
    }
}

/// The decimal text of `n`: a minus sign before the digits of a negative number.
pub open spec fn decimal_text(n: int) -> Seq<char> {
    if n < 0 {
        seq!['-'] + decimal_digits((-n) as nat)
    } else {
        decimal_digits(n as nat)
    }
}

/// The gear indicator text: `R` for reverse (-1), `N` for neutral (0), and the
/// gear number otherwise.
pub open spec fn gear_text(gear: i8) -> Seq<char> {
    if gear == -1 {
        seq!['R']
    } else if gear == 0 {
        seq!['N']
    } else {
        decimal_text(gear as int)
    }
}

/// The one-character text of decimal digit `d`.
fn digit_str(d: u8) -> (s: &'static str)
    requires
        d < 10,
    ensures
        s@ == seq![digit_char(d as nat)],
{
    proof {
        reveal_strlit("0");
        reveal_strlit("1");
        reveal_strlit("2");
        reveal_strlit("3");
        reveal_strlit("4");
        reveal_strlit("5");
        reveal_strlit("6");
        reveal_strlit("7");
        reveal_strlit("8");
        reveal_strlit("9");
    }
    if d == 0 {
        "0"
    } else if d == 1 {
        "1"
    } else if d == 2 {
        "2"
    } else if d == 3 {
        "3"
    } else if d == 4 {
        "4"
    } else if d == 5 {
        "5"
    } else if d == 6 {
        "6"
    } else if d == 7 {
        "7"
    } else if d == 8 {
        "8"
    } else {
        "9"
    }
}

/// The decimal text of an `i8`, as `format!("{}", n)` writes it.
fn i8_text(n: i8) -> (s: String)
    ensures
        s@ == decimal_text(n as int),
{
    let mut s = String::new();
    let magnitude: u8 = if n < 0 {
        proof {
            reveal_strlit("-");
        }
        s.append("-");
        if n == -128 {
            128u8
        } else {
            (-n) as u8
        }
    } else {
        n as u8
    };
    let ghost m = magnitude as nat;
    assert(decimal_digits(m) == if m < 10 {
        seq![digit_char(m)]
    } else if m < 100 {
        seq![digit_char(m / 10), digit_char(m % 10)]
    } else {
        seq![digit_char(m / 100), digit_char((m / 10) % 10), digit_char(m % 10)]
    }) by {
        if m >= 10 {
            assert(decimal_digits(m / 10) == if m / 10 < 10 {
                seq![digit_char(m / 10)]
            } else {
                decimal_digits(m / 100).push(digit_char((m / 10) % 10))
            });
            if m >= 100 {
                assert(m / 10 / 10 == m / 100);
                assert(decimal_digits(m / 100) == seq![digit_char(m / 100)]);
            }
        }
    }
    if magnitude >= 100 {
        s.append(digit_str(magnitude / 100));
    }
    if magnitude >= 10 {
        s.append(digit_str((magnitude / 10) % 10));
    }
    s.append(digit_str(magnitude % 10));
    s
}

/// HUD display settings
#[derive(Debug, Clone, Copy, PartialEq, Eq, Structural)]
pub struct HUD {
    /// Show speedometer
    pub show_speedometer: bool,
    /// Show gear indicator
    pub show_gear: bool,
    /// Show fuel gauge
    pub show_fuel: bool,
    /// Show winch status
    pub show_winch: bool,
    /// Show weather info
    pub show_weather: bool,
    /// Show coordinates
    pub show_coordinates: bool,
    /// Speed unit (km/h or mph)
    pub speed_unit: SpeedUnit,
}

/// Which HUD elements a frame shows
#[derive(Debug, Clone, Copy, PartialEq, Eq, Structural)]
pub struct HudElements {
    pub speed: bool,
    pub gear: bool,
    pub fuel: bool,
    pub rpm: bool,
    pub winch_active: bool,
    pub winch_tension: bool,
    pub weather: bool,
    pub temperature: bool,
    pub coordinates: bool,
    pub health: bool,
}

/// The HUD as a new game shows it: speedometer, gear, fuel and winch shown,
/// weather and coordinates hidden, speed in km/h.
pub open spec fn initial_hud() -> HUD {
    HUD {
        show_speedometer: true,
        show_gear: true,
        show_fuel: true,
        show_winch: true,
        show_weather: false,
        show_coordinates: false,
        speed_unit: SpeedUnit::Kmh,
    }
}

/// The other speed unit.
pub open spec fn next_speed_unit(unit: SpeedUnit) -> SpeedUnit {
    match unit {
        SpeedUnit::Kmh => SpeedUnit::Mph,
        SpeedUnit::Mph => SpeedUnit::Kmh,
    }
}

impl Default for HUD {
    fn default() -> (hud: Self)
        ensures
            hud == initial_hud(),
    {
        HUD {
            show_speedometer: true,
            show_gear: true,
            show_fuel: true,
            show_winch: true,
            show_weather: false,
            show_coordinates: false,
            speed_unit: SpeedUnit::Kmh,
        }
    }
}

impl HUD {
    /// Create new HUD
    pub fn new() -> (hud: Self)
        ensures
            hud == initial_hud(),
    {
        Self::default()
    }

    /// Which elements a frame shows: speed and rpm with the speedometer,
    /// gear, fuel, winch status, weather (type and temperature) and
    /// coordinates each with its switch, the winch tension only while the
    /// winch is shown and active, and health always.
    pub fn visible_elements(&self, winch_active: bool) -> (e: HudElements)
        ensures
            e == (HudElements {
                speed: self.show_speedometer,
                gear: self.show_gear,
                fuel: self.show_fuel,
                rpm: self.show_speedometer,
                winch_active: self.show_winch,
                winch_tension: self.show_winch && winch_active,
                weather: self.show_weather,
                temperature: self.show_weather,
                coordinates: self.show_coordinates,
                health: true,
            }),
    {
        HudElements {
            speed: self.show_speedometer,
            gear: self.show_gear,
            fuel: self.show_fuel,
            rpm: self.show_speedometer,
            winch_active: self.show_winch,
            winch_tension: self.show_winch && winch_active,
            weather: self.show_weather,
            temperature: self.show_weather,
            coordinates: self.show_coordinates,
            health: true,
        }
    }

    /// Get gear display string
    pub fn get_gear_string(&self, gear: i8) -> (s: String)
        ensures
            s@ == gear_text(gear),
    {
        match gear {
            -1 => {
                proof {
                    reveal_strlit("R");
                }
                String::from_str("R")
            },
            0 => {
                proof {
                    reveal_strlit("N");
                }
                String::from_str("N")
            },
            g => i8_text(g),
        }
    }

    /// Toggle speedometer visibility
    pub fn toggle_speedometer(&mut self)
        ensures
            *final(self) == (HUD { show_speedometer: !old(self).show_speedometer, ..*old(self) }),
    {
        self.show_speedometer = !self.show_speedometer;
    }

    /// Toggle fuel gauge visibility
    pub fn toggle_fuel(&mut self)
        ensures
            *final(self) == (HUD { show_fuel: !old(self).show_fuel, ..*old(self) }),
    {
        self.show_fuel = !self.show_fuel;
    }

    /// Toggle winch display
    pub fn toggle_winch(&mut self)
        ensures
            *final(self) == (HUD { show_winch: !old(self).show_winch, ..*old(self) }),
    {
        self.show_winch = !self.show_winch;
    }

    /// Toggle minimap: the minimap keeps its own visibility, so the HUD is
    /// left unchanged.
    pub fn toggle_minimap(&mut self)
        ensures
            *final(self) == *old(self),
    {
    }

    /// Cycle speed units
    pub fn cycle_speed_units(&mut self)
        ensures
            *final(self) == (HUD { speed_unit: next_speed_unit(old(self).speed_unit), ..*old(self) }),
    {
        self.speed_unit = match self.speed_unit {
            SpeedUnit::Kmh => SpeedUnit::Mph,
            SpeedUnit::Mph => SpeedUnit::Kmh,
        };
    }
}

/// Cycling the speed unit twice gives back the unit one started from, and a
/// single cycle always changes it.
pub proof fn lemma_speed_unit_cycle(unit: SpeedUnit)
    ensures
        next_speed_unit(next_speed_unit(unit)) == unit,
        next_speed_unit(unit) != unit,
{
}

/// The gear text is never empty, and it names reverse and neutral by letter
/// only: no gear other than -1 gives `R`, none other than 0 gives `N`.
pub proof fn lemma_gear_text_letters(gear: i8)
    ensures
        gear_text(gear).len() > 0,
        gear != -1 ==> gear_text(gear) != seq!['R'],
        gear != 0 ==> gear_text(gear) != seq!['N'],
{
    let n = gear as int;
    assert(seq!['R'][0] == 'R' && seq!['N'][0] == 'N');
    if gear != -1 && gear != 0 {
        let m: nat = if n < 0 { (-n) as nat } else { n as nat };
        lemma_decimal_digits_start(m);
        if n < 0 {
            assert((seq!['-'] + decimal_digits(m))[0] == '-');
        }
        assert(gear_text(gear)[0] != 'R' && gear_text(gear)[0] != 'N');
    }
}

/// The decimal digits of a number are never empty and start with a digit.
pub proof fn lemma_decimal_digits_start(n: nat)
    ensures
        decimal_digits(n).len() > 0,
        decimal_digits(n)[0] != 'R' && decimal_digits(n)[0] != 'N' && decimal_digits(n)[0] != '-',
    decreases n,
{
    if n >= 10 {
        lemma_decimal_digits_start(n / 10);
    }
}

/// The number that a string of decimal digits spells, most significant
/// digit first.
pub open spec fn digits_value(s: Seq<char>) -> int
    decreases s.len(),
{
    if s.len() == 0 {
        0
    } else {
        digits_value(s.drop_last()) * 10 + (s.last() as int - '0' as int)
    }
}

/// Each digit character spells its digit.
proof fn lemma_digit_char_value(d: nat)
    requires
        d < 10,
    ensures
        digit_char(d) as int - '0' as int == d,
        '0' <= digit_char(d) <= '9',
        d != 0 ==> digit_char(d) != '0',
{
    assert('0' as int == 48 && '1' as int == 49 && '2' as int == 50 && '3' as int == 51 && '4' as int
        == 52 && '5' as int == 53 && '6' as int == 54 && '7' as int == 55 && '8' as int == 56
        && '9' as int == 57);
}

/// The decimal digits of `n` are digits `0` to `9` that spell `n`, with no
/// leading zero.
pub proof fn lemma_decimal_digits_spell(n: nat)
    ensures
        decimal_digits(n).len() > 0,
        forall|i: int|
            0 <= i < decimal_digits(n).len() ==> '0' <= #[trigger] decimal_digits(n)[i] <= '9',
        digits_value(decimal_digits(n)) == n,
        decimal_digits(n).len() > 1 ==> decimal_digits(n)[0] != '0',
        n >= 10 ==> decimal_digits(n).len() > 1,
    decreases n,
{
    if n < 10 {
        lemma_digit_char_value(n);
        let d = decimal_digits(n);
        assert(d.drop_last() == Seq::<char>::empty());
        assert(digits_value(Seq::<char>::empty()) == 0);
        assert(d.last() == digit_char(n) && d[0] == digit_char(n));
        assert(digits_value(d) == n);
    } else {
        lemma_decimal_digits_spell(n / 10);
        lemma_digit_char_value(n % 10);
        let t = decimal_digits(n / 10);
        let d = decimal_digits(n);
        assert(d.drop_last() == t);
        assert(d.last() == digit_char(n % 10));
        assert forall|i: int| 0 <= i < d.len() implies '0' <= #[trigger] d[i] <= '9' by {
            if i < t.len() {
                assert(d[i] == t[i]);
            } else {
                assert(d[i] == digit_char(n % 10));
            }
        }
        assert(d[0] == t[0]);
        if n / 10 < 10 {
            lemma_digit_char_value(n / 10);
            assert(t[0] == digit_char(n / 10));
        }
        assert(digits_value(d) == (n / 10) * 10 + n % 10);
        assert((n / 10) * 10 + n % 10 == n) by {
            vstd::arithmetic::div_mod::lemma_fundamental_div_mod(n as int, 10);
        }
    }
}

/// The gear indicator reads back as the gear: `R` for reverse, `N` for
/// neutral, the gear's digits for a forward gear, and a minus sign before
/// the digits of any other negative gear.
pub proof fn lemma_gear_text_reads_back(gear: i8)
    ensures
        gear == -1 ==> gear_text(gear) == seq!['R'],
        gear == 0 ==> gear_text(gear) == seq!['N'],
        gear > 0 ==> digits_value(gear_text(gear)) == gear && forall|i: int|
            0 <= i < gear_text(gear).len() ==> '0' <= #[trigger] gear_text(gear)[i] <= '9',
        gear < -1 ==> gear_text(gear)[0] == '-' && digits_value(gear_text(gear).skip(1)) == -gear
            && forall|i: int|
            1 <= i < gear_text(gear).len() ==> '0' <= #[trigger] gear_text(gear)[i] <= '9',
{
    if gear > 0 {
        lemma_decimal_digits_spell(gear as nat);
    } else if gear < -1 {
        let m = (-(gear as int)) as nat;
        lemma_decimal_digits_spell(m);
        let t = seq!['-'] + decimal_digits(m);
        assert(t.skip(1) == decimal_digits(m));
        assert forall|i: int| 1 <= i < t.len() implies '0' <= #[trigger] t[i] <= '9' by {
            assert(t[i] == decimal_digits(m)[i - 1]);
        }
    }
}

} // verus!
