use vstd::prelude::*;

verus! {

/// The school of a damage type; `Physical` stands for plain physical damage.
#[derive(Clone, Copy, PartialEq, Eq, Structural, Debug)]
pub enum MagicSchool {
    Physical,
    Flame,
    Frost,
    Lightning,
    Shadow,
    Light,
}

/// How a creature deals damage: a numeric range (potency) and a school.
#[derive(Clone, Copy, PartialEq, Eq, Structural, Debug)]
pub struct DamageType {
    range: u32,
    school: MagicSchool,
}

/// The render colour that belongs to a school.
pub open spec fn school_color(school: MagicSchool) -> (u8, u8, u8) {
    match school {
        MagicSchool::Physical => (255, 255, 255),
        MagicSchool::Flame => (255, 140, 0),
        MagicSchool::Frost => (0, 128, 128),
        MagicSchool::Lightning => (0, 0, 139),
        MagicSchool::Shadow => (128, 0, 128),
        MagicSchool::Light => (250, 250, 210),
    }
}

impl DamageType {
    /// The damage type that `new` makes.
    pub closed spec fn new_spec(range: u32, school: MagicSchool) -> DamageType {
        DamageType { range, school }
    }

    pub closed spec fn spec_range(&self) -> u32 {
        self.range
    }

    pub closed spec fn spec_school(&self) -> MagicSchool {
        self.school
    }

    pub fn new(range: u32, school: MagicSchool) -> (r: DamageType)
        ensures
            r == DamageType::new_spec(range, school),
            r.spec_range() == range,
            r.spec_school() == school,
    {
        DamageType { range, school }
    }

    pub fn range(&self) -> (r: u32)
        ensures
            r == self.spec_range(),
    {
        self.range
    }

    pub fn school(&self) -> (r: MagicSchool)
        ensures
            r == self.spec_school(),
    {
        self.school
    }

    pub fn name(&self) -> (r: String)
        ensures
            r@ == damage_name(self.spec_range(), self.spec_school()),
    {
        let mut s = String::new();
        push_decimal(&mut s, self.range);
        s.append("R ");
        s.append(school_str(self.school));
        proof {
            reveal_strlit("R ");
        }
        assert(s@ =~= damage_name(self.range, self.school));
        s
    }

    pub fn color(&self) -> (r: (u8, u8, u8))
        ensures
            r == school_color(self.spec_school()),
    {
        match self.school {
            MagicSchool::Physical => (255, 255, 255),
            MagicSchool::Flame => (255, 140, 0),
            MagicSchool::Frost => (0, 128, 128),
            MagicSchool::Lightning => (0, 0, 139),
            MagicSchool::Shadow => (128, 0, 128),
            MagicSchool::Light => (250, 250, 210),
        }
    }
}

/// The decimal digit character for `d < 10`.
pub open spec fn digit_char(d: nat) -> char {
    if d == 0 {
        '0'
    } else if d == 1 {
        '1'
    } else if d == 2 {
        '2'
    } else if d == 3 {
        '3'
    } else if d == 4 {
        '4'
    } else if d == 5 {
        '5'
    } else if d == 6 {
        '6'
    } else if d == 7 {
        '7'
    } else if d == 8 {
        '8'
    } else {
        '9'
    }
}

/// The decimal notation of `n`, most significant digit first, without leading zeros.
pub open spec fn decimal(n: nat) -> Seq<char>
    decreases n,
{
    if n < 10 {
        seq![digit_char(n)]
    } else {
        decimal(n / 10) + seq![digit_char(n % 10)]
    }
}

/// The short label of a school.
pub open spec fn school_label(school: MagicSchool) -> Seq<char> {
    match school {
        MagicSchool::Physical => seq!['P', 'H', 'Y', 'S', '.'],
        MagicSchool::Flame => seq!['F', 'L', 'A', 'M', 'E'],
        MagicSchool::Frost => seq!['F', 'R', 'O', 'S', 'T'],
        MagicSchool::Lightning => seq!['L', 'I', 'G', 'H', 'T', 'N', '.'],
        MagicSchool::Shadow => seq!['S', 'H', 'A', 'D', 'O', 'W'],
        MagicSchool::Light => seq!['L', 'I', 'G', 'H', 'T'],
    }
}

/// The display name of a damage type: its range in decimal, `R `, then the school's label.
pub open spec fn damage_name(range: u32, school: MagicSchool) -> Seq<char> {
    decimal(range as nat) + seq!['R', ' '] + school_label(school)
}

fn digit_str(d: u32) -> (r: &'static str)
    requires
        d < 10,
    ensures
        r@ == seq![digit_char(d as nat)],
{
    let r = if d == 0 {
        "0"
    } else if d == 1 {
        "1"
    } else if d == 2 {
        "2"
    } else if d == 3 {
        "3"
    } else if d == 4 {
        "4"
    } else if d == 5 {
        "5"
    } else if d == 6 {
        "6"
    } else if d == 7 {
        "7"
    } else if d == 8 {
        "8"
    } else {
        "9"
    };
    proof {
        reveal_strlit("0");
        reveal_strlit("1");
        reveal_strlit("2");
        reveal_strlit("3");
        reveal_strlit("4");
        reveal_strlit("5");
        reveal_strlit("6");
        reveal_strlit("7");
        reveal_strlit("8");
        reveal_strlit("9");
    }
    assert(r@ =~= seq![digit_char(d as nat)]);
    r
}

/// Appends the decimal notation of `n` to `s`.
fn push_decimal(s: &mut String, n: u32)
    ensures
        final(s)@ == old(s)@ + decimal(n as nat),
    decreases n,
{
    if n >= 10 {
        push_decimal(s, n / 10);
    }
    s.append(digit_str(n % 10));
    assert(final(s)@ =~= old(s)@ + decimal(n as nat));
}

fn school_str(school: MagicSchool) -> (r: &'static str)
    ensures
        r@ == school_label(school),
{
    let r = match school {
        MagicSchool::Physical => "PHYS.",
        MagicSchool::Flame => "FLAME",
        MagicSchool::Frost => "FROST",
        MagicSchool::Lightning => "LIGHTN.",
        MagicSchool::Shadow => "SHADOW",
        MagicSchool::Light => "LIGHT",
    };
    proof {
        reveal_strlit("PHYS.");
        reveal_strlit("FLAME");
        reveal_strlit("FROST");
        reveal_strlit("LIGHTN.");
        reveal_strlit("SHADOW");
        reveal_strlit("LIGHT");
    }
    assert(r@ =~= school_label(school));
    r
}

/// The template of a creature card, as the contracts see it.
pub struct MonsterDataView {
    pub name: Seq<char>,
    pub base_cost: i32,
    pub base_health: i32,
    pub base_damage: i32,
    pub attack_type: DamageType,
}

/// An immutable creature template from which creature cards are stamped.
pub struct MonsterData {
    name: String,
    base_cost: i32,
    base_health: i32,
    base_damage: i32,
    attack_type: DamageType,
}

impl View for MonsterData {
    type V = MonsterDataView;

    closed spec fn view(&self) -> MonsterDataView {
        MonsterDataView {
            name: self.name@,
            base_cost: self.base_cost,
            base_health: self.base_health,
            base_damage: self.base_damage,
            attack_type: self.attack_type,
        }
    }
}

impl Clone for MonsterData {
    fn clone(&self) -> (r: Self)
        ensures
            r@ == self@,
    {
        MonsterData {
            name: self.name.clone(),
            base_cost: self.base_cost,
            base_health: self.base_health,
            base_damage: self.base_damage,
            attack_type: self.attack_type,
        }
    }
}

impl MonsterData {
    pub fn new(name: String, cost: i32, health: i32, damage: i32, attack_type: DamageType) -> (r:
        MonsterData)
        ensures
            r@ == (MonsterDataView {
                name: name@,
                base_cost: cost,
                base_health: health,
                base_damage: damage,
                attack_type,
            }),
    {
        MonsterData { name, base_cost: cost, base_health: health, base_damage: damage, attack_type }
    }

    pub fn name(&self) -> (r: String)
        ensures
            r@ == self@.name,
    {
        self.name.clone()
    }

    pub fn base_cost(&self) -> (r: i32)
        ensures
            r == self@.base_cost,
    {
        self.base_cost
    }

    pub fn base_health(&self) -> (r: i32)
        ensures
            r == self@.base_health,
    {
        self.base_health
    }

    pub fn base_damage(&self) -> (r: i32)
        ensures
            r == self@.base_damage,
    {
        self.base_damage
    }

    pub fn attack_type(&self) -> (r: DamageType)
        ensures
            r == self@.attack_type,
    {
        self.attack_type
    }
}

/// A creature card, as the contracts see it.
pub struct MonsterView {
    pub id: u32,
    pub cost: i32,
    pub health: i32,
    pub damage: i32,
    pub data: MonsterDataView,
    pub hidden: bool,
}

/// A creature card instance: an identity, current stats, its template and the hidden flag.
pub struct Monster {
    id: u32,
    cost: i32,
    health: i32,
    damage: i32,
    data: MonsterData,
    hidden: bool,
}

impl View for Monster {
    type V = MonsterView;

    closed spec fn view(&self) -> MonsterView {
        MonsterView {
            id: self.id,
            cost: self.cost,
            health: self.health,
            damage: self.damage,
            data: self.data@,
            hidden: self.hidden,
        }
    }
}

impl Clone for Monster {
    fn clone(&self) -> (r: Self)
        ensures
            r@ == self@,
    {
        Monster {
            id: self.id,
            cost: self.cost,
            health: self.health,
            damage: self.damage,
            data: self.data.clone(),
            hidden: self.hidden,
        }
    }
}

/// A fresh, hidden creature stamped from `data`: its current stats are the base stats.
pub open spec fn fresh_monster(id: u32, data: MonsterDataView) -> MonsterView {
    MonsterView {
        id,
        cost: data.base_cost,
        health: data.base_health,
        damage: data.base_damage,
        data,
        hidden: true,
    }
}

impl Monster {
    /// A fresh, hidden creature whose current stats are the template's base stats.
    pub fn new(id: u32, data: MonsterData) -> (r: Monster)
        ensures
            r@ == fresh_monster(id, data@),
    {
        Monster {
            id,
            cost: data.base_cost,
            health: data.base_health,
            damage: data.base_damage,
            data,
            hidden: true,
        }
    }

    pub fn cost(&self) -> (r: i32)
        ensures
            r == self@.cost,
    {
        self.cost
    }

    pub fn health(&self) -> (r: i32)
        ensures
            r == self@.health,
    {
        self.health
    }

    pub fn damage(&self) -> (r: i32)
        ensures
            r == self@.damage,
    {
        self.damage
    }

    pub fn data(&self) -> (r: &MonsterData)
        ensures
            r@ == self@.data,
    {
        &self.data
    }

    pub fn id(&self) -> (r: u32)
        ensures
            r == self@.id,
    {
        self.id
    }

    pub fn hidden(&self) -> (r: bool)
        ensures
            r == self@.hidden,
    {
        self.hidden
    }

    /// Makes the card visible; nothing else changes.
    pub fn reveal_card(&mut self)
        ensures
            final(self)@ == (MonsterView { hidden: false, ..old(self)@ }),
    {
        self.hidden = false;
    }
}

/// What a spell does when it resolves: the card that casts it, the cards it aims
/// at, and the key of the handler to run. The engine never runs handlers itself:
/// the key is opaque to it and the host resolves it.
pub struct Effect {
    source: CardHolder,
    targets: Vec<CardHolder>,
    effect: u32,
}

impl Effect {
    pub fn new(source: CardHolder, targets: Vec<CardHolder>, effect: u32) -> (r: Effect)
        ensures
            r.spec_handler() == effect,
            r.spec_source()@ == source@,
            r.spec_targets()@ == targets@,
    {
        Effect { source, targets, effect }
    }

    pub closed spec fn spec_source(&self) -> CardHolder {
        self.source
    }

    pub closed spec fn spec_targets(&self) -> Vec<CardHolder> {
        self.targets
    }

    pub closed spec fn spec_handler(&self) -> u32 {
        self.effect
    }

    pub fn source(&self) -> (r: &CardHolder)
        ensures
            r@ == self.spec_source()@,
    {
        &self.source
    }

    pub fn targets(&self) -> (r: &Vec<CardHolder>)
        ensures
            r@ == self.spec_targets()@,
    {
        &self.targets
    }

    /// The key of the handler to run when the spell resolves.
    pub fn handler(&self) -> (r: u32)
        ensures
            r == self.spec_handler(),
    {
        self.effect
    }
}

/// The template of a spell card, as the contracts see it.
pub struct MagicDataView {
    pub name: Seq<char>,
    pub base_cost: i32,
}

/// An immutable spell template: name, base cost and effect.
pub struct MagicData {
    name: String,
    base_cost: i32,
    effect: Box<Effect>,
}

impl View for MagicData {
    type V = MagicDataView;

    closed spec fn view(&self) -> MagicDataView {
        MagicDataView { name: self.name@, base_cost: self.base_cost }
    }
}

impl MagicData {
    pub closed spec fn spec_effect(&self) -> Effect {
        *self.effect
    }

    pub fn new(name: String, cost: i32, effect: Effect) -> (r: MagicData)
        ensures
            r@ == (MagicDataView { name: name@, base_cost: cost }),
            r.spec_effect() == effect,
    {
        MagicData { name, base_cost: cost, effect: Box::new(effect) }
    }

    pub fn name(&self) -> (r: String)
        ensures
            r@ == self@.name,
    {
        self.name.clone()
    }

    pub fn base_cost(&self) -> (r: i32)
        ensures
            r == self@.base_cost,
    {
        self.base_cost
    }

    pub fn effect(&self) -> (r: &Effect)
        ensures
            *r == self.spec_effect(),
    {
        &self.effect
    }
}

/// A spell card, as the contracts see it.
pub struct MagicView {
    pub id: u32,
    pub cost: i32,
    pub data: MagicDataView,
    pub hidden: bool,
}

/// A spell card instance: an identity, current cost, its template and the hidden flag.
pub struct Magic {
    id: u32,
    cost: i32,
    data: MagicData,
    hidden: bool,
}

impl View for Magic {
    type V = MagicView;

    closed spec fn view(&self) -> MagicView {
        MagicView { id: self.id, cost: self.cost, data: self.data@, hidden: self.hidden }
    }
}

impl Magic {
    /// A fresh, hidden spell whose current cost is the template's base cost.
    pub fn new(id: u32, data: MagicData) -> (r: Magic)
        ensures
            r@ == (MagicView { id, cost: data@.base_cost, data: data@, hidden: true }),
    {
        Magic { id, cost: data.base_cost, data, hidden: true }
    }

    pub fn cost(&self) -> (r: i32)
        ensures
            r == self@.cost,
    {
        self.cost
    }

    pub fn data(&self) -> (r: &MagicData)
        ensures
            r@ == self@.data,
    {
        &self.data
    }

    pub fn id(&self) -> (r: u32)
        ensures
            r == self@.id,
    {
        self.id
    }

    pub fn hidden(&self) -> (r: bool)
        ensures
            r == self@.hidden,
    {
        self.hidden
    }

    /// Makes the card visible; nothing else changes.
    pub fn reveal_card(&mut self)
        ensures
            final(self)@ == (MagicView { hidden: false, ..old(self)@ }),
    {
        self.hidden = false;
    }
}

/// A card as the contracts see it: a creature or a spell.
pub enum CardView {
    Monster(MonsterView),
    Magic(MagicView),
}

impl CardView {
    pub open spec fn id(self) -> u32 {
        match self {
            CardView::Monster(m) => m.id,
            CardView::Magic(m) => m.id,
        }
    }

    pub open spec fn hidden(self) -> bool {
        match self {
            CardView::Monster(m) => m.hidden,
            CardView::Magic(m) => m.hidden,
        }
    }

    pub open spec fn name(self) -> Seq<char> {
        match self {
            CardView::Monster(m) => m.data.name,
            CardView::Magic(m) => m.data.name,
        }
    }

    /// The same card with its hidden flag cleared.
    pub open spec fn revealed(self) -> CardView {
        match self {
            CardView::Monster(m) => CardView::Monster(MonsterView { hidden: false, ..m }),
            CardView::Magic(m) => CardView::Magic(MagicView { hidden: false, ..m }),
        }
    }
}

/// A card instance in a zone: a creature or a spell.
pub enum CardHolder {
    MonsterCard(Monster),
    MagicCard(Magic),
}

impl View for CardHolder {
    type V = CardView;

    open spec fn view(&self) -> CardView {
        match self {
            CardHolder::MonsterCard(m) => CardView::Monster(m@),
            CardHolder::MagicCard(m) => CardView::Magic(m@),
        }
    }
}

impl CardHolder {
    /// The template's name, whether or not the card is hidden.
    pub fn name(&self) -> (r: String)
        ensures
            r@ == self@.name(),
    {
        match self {
            CardHolder::MonsterCard(c) => c.data().name(),
            CardHolder::MagicCard(c) => c.data().name(),
        }
    }

    pub fn id(&self) -> (r: u32)
        ensures
            r == self@.id(),
    {
        match self {
            CardHolder::MonsterCard(c) => c.id(),
            CardHolder::MagicCard(c) => c.id(),
        }
    }

    pub fn hidden(&self) -> (r: bool)
        ensures
            r == self@.hidden(),
    {
        match self {
            CardHolder::MonsterCard(c) => c.hidden(),
            CardHolder::MagicCard(c) => c.hidden(),
        }
    }

    /// Makes the card visible; revealing twice is the same as revealing once.
    pub fn reveal_card(&mut self)
        ensures
            final(self)@ == old(self)@.revealed(),
    {
        match self {
            CardHolder::MonsterCard(c) => c.reveal_card(),
            CardHolder::MagicCard(c) => c.reveal_card(),
        }
    }
}

} // verus!
