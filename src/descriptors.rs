use vstd::prelude::*;

verus! {

/// Number of values in a computed descriptor vector.
pub const DESCRIPTOR_COUNT: usize = 43;

/// One entry of the descriptor vector. The position of each entry in the
/// vector is fixed, and is given by `Descriptor::position`.
#[derive(Clone, Copy, Debug, PartialEq, Eq, Structural)]
pub enum Descriptor {
    /// Monoisotopic molecular weight.
    ExactMw,
    /// Average molecular weight.
    Amw,
    /// Hydrogen-bond acceptors by Lipinski's rule.
    LipinskiHba,
    /// Hydrogen-bond donors by Lipinski's rule.
    LipinskiHbd,
    /// Rotatable bonds.
    NumRotatableBonds,
    /// Hydrogen-bond donors.
    NumHbd,
    /// Hydrogen-bond acceptors.
    NumHba,
    /// Heavy (non-hydrogen) atoms.
    NumHeavyAtoms,
    /// Atoms, hydrogens included.
    NumAtoms,
    /// Heteroatoms.
    NumHeteroatoms,
    /// Amide bonds.
    NumAmideBonds,
    /// Fraction of carbons that are sp3.
    FractionCSp3,
    /// Rings.
    NumRings,
    /// Aromatic rings.
    NumAromaticRings,
    /// Aliphatic rings.
    NumAliphaticRings,
    /// Saturated rings.
    NumSaturatedRings,
    /// Heterocycles.
    NumHeterocycles,
    /// Aromatic heterocycles.
    NumAromaticHeterocycles,
    /// Saturated heterocycles.
    NumSaturatedHeterocycles,
    /// Aliphatic heterocycles.
    NumAliphaticHeterocycles,
    /// Spiro atoms.
    NumSpiroAtoms,
    /// Bridgehead atoms.
    NumBridgeheadAtoms,
    /// Atom stereo centers.
    NumAtomStereoCenters,
    /// Atom stereo centers without an assigned configuration.
    NumUnspecifiedAtomStereoCenters,
    /// Labute approximate surface area.
    LabuteAsa,
    /// Topological polar surface area.
    Tpsa,
    /// Crippen logP.
    CrippenClogP,
    /// Crippen molar refractivity.
    CrippenMr,
    /// Valence connectivity index of order 0.
    Chi0v,
    /// Valence connectivity index of order 1.
    Chi1v,
    /// Valence connectivity index of order 2.
    Chi2v,
    /// Valence connectivity index of order 3.
    Chi3v,
    /// Valence connectivity index of order 4.
    Chi4v,
    /// Connectivity index of order 0.
    Chi0n,
    /// Connectivity index of order 1.
    Chi1n,
    /// Connectivity index of order 2.
    Chi2n,
    /// Connectivity index of order 3.
    Chi3n,
    /// Connectivity index of order 4.
    Chi4n,
    /// Hall-Kier alpha.
    HallKierAlpha,
    /// Kappa shape index of order 1.
    Kappa1,
    /// Kappa shape index of order 2.
    Kappa2,
    /// Kappa shape index of order 3.
    Kappa3,
    /// Kier flexibility index.
    Phi,
}

/// The descriptor that stands at position `i` of the vector, if any.
pub open spec fn descriptor_at(i: int) -> Option<Descriptor> {
    if i == 0 {
        Some(Descriptor::ExactMw)
    } else if i == 1 {
        Some(Descriptor::Amw)
    } else if i == 2 {
        Some(Descriptor::LipinskiHba)
    } else if i == 3 {
        Some(Descriptor::LipinskiHbd)
    } else if i == 4 {
        Some(Descriptor::NumRotatableBonds)
    } else if i == 5 {
        Some(Descriptor::NumHbd)
    } else if i == 6 {
        Some(Descriptor::NumHba)
    } else if i == 7 {
        Some(Descriptor::NumHeavyAtoms)
    } else if i == 8 {
        Some(Descriptor::NumAtoms)
    } else if i == 9 {
        Some(Descriptor::NumHeteroatoms)
    } else if i == 10 {
        Some(Descriptor::NumAmideBonds)
    } else if i == 11 {
        Some(Descriptor::FractionCSp3)
    } else if i == 12 {
        Some(Descriptor::NumRings)
    } else if i == 13 {
        Some(Descriptor::NumAromaticRings)
    } else if i == 14 {
        Some(Descriptor::NumAliphaticRings)
    } else if i == 15 {
        Some(Descriptor::NumSaturatedRings)
    } else if i == 16 {
        Some(Descriptor::NumHeterocycles)
    } else if i == 17 {
        Some(Descriptor::NumAromaticHeterocycles)
    } else if i == 18 {
        Some(Descriptor::NumSaturatedHeterocycles)
    } else if i == 19 {
        Some(Descriptor::NumAliphaticHeterocycles)
    } else if i == 20 {
        Some(Descriptor::NumSpiroAtoms)
    } else if i == 21 {
        Some(Descriptor::NumBridgeheadAtoms)
    } else if i == 22 {
        Some(Descriptor::NumAtomStereoCenters)
    } else if i == 23 {
        Some(Descriptor::NumUnspecifiedAtomStereoCenters)
    } else if i == 24 {
        Some(Descriptor::LabuteAsa)
    } else if i == 25 {
        Some(Descriptor::Tpsa)
    } else if i == 26 {
        Some(Descriptor::CrippenClogP)
    } else if i == 27 {
        Some(Descriptor::CrippenMr)
    } else if i == 28 {
        Some(Descriptor::Chi0v)
    } else if i == 29 {
        Some(Descriptor::Chi1v)
    } else if i == 30 {
        Some(Descriptor::Chi2v)
    } else if i == 31 {
        Some(Descriptor::Chi3v)
    } else if i == 32 {
        Some(Descriptor::Chi4v)
    } else if i == 33 {
        Some(Descriptor::Chi0n)
    } else if i == 34 {
        Some(Descriptor::Chi1n)
    } else if i == 35 {
        Some(Descriptor::Chi2n)
    } else if i == 36 {
        Some(Descriptor::Chi3n)
    } else if i == 37 {
        Some(Descriptor::Chi4n)
    } else if i == 38 {
        Some(Descriptor::HallKierAlpha)
    } else if i == 39 {
        Some(Descriptor::Kappa1)
    } else if i == 40 {
        Some(Descriptor::Kappa2)
    } else if i == 41 {
        Some(Descriptor::Kappa3)
    } else if i == 42 {
        Some(Descriptor::Phi)
    } else {
        None
    }
}

impl Descriptor {
    /// Position of the descriptor in the computed vector.
    pub open spec fn index(self) -> int {
        match self {
            Descriptor::ExactMw => 0,
            Descriptor::Amw => 1,
            Descriptor::LipinskiHba => 2,
            Descriptor::LipinskiHbd => 3,
            Descriptor::NumRotatableBonds => 4,
            Descriptor::NumHbd => 5,
            Descriptor::NumHba => 6,
            Descriptor::NumHeavyAtoms => 7,
            Descriptor::NumAtoms => 8,
            Descriptor::NumHeteroatoms => 9,
            Descriptor::NumAmideBonds => 10,
            Descriptor::FractionCSp3 => 11,
            Descriptor::NumRings => 12,
            Descriptor::NumAromaticRings => 13,
            Descriptor::NumAliphaticRings => 14,
            Descriptor::NumSaturatedRings => 15,
            Descriptor::NumHeterocycles => 16,
            Descriptor::NumAromaticHeterocycles => 17,
            Descriptor::NumSaturatedHeterocycles => 18,
            Descriptor::NumAliphaticHeterocycles => 19,
            Descriptor::NumSpiroAtoms => 20,
            Descriptor::NumBridgeheadAtoms => 21,
            Descriptor::NumAtomStereoCenters => 22,
            Descriptor::NumUnspecifiedAtomStereoCenters => 23,
            Descriptor::LabuteAsa => 24,
            Descriptor::Tpsa => 25,
            Descriptor::CrippenClogP => 26,
            Descriptor::CrippenMr => 27,
            Descriptor::Chi0v => 28,
            Descriptor::Chi1v => 29,
            Descriptor::Chi2v => 30,
            Descriptor::Chi3v => 31,
            Descriptor::Chi4v => 32,
            Descriptor::Chi0n => 33,
            Descriptor::Chi1n => 34,
            Descriptor::Chi2n => 35,
            Descriptor::Chi3n => 36,
            Descriptor::Chi4n => 37,
            Descriptor::HallKierAlpha => 38,
            Descriptor::Kappa1 => 39,
            Descriptor::Kappa2 => 40,
            Descriptor::Kappa3 => 41,
            Descriptor::Phi => 42,
        }
    }

    /// Whether the descriptor counts something (atoms, bonds, rings), so that
    /// its value is a whole number; the others are measures.
    pub open spec fn counts(self) -> bool {
        match self {
            Descriptor::ExactMw | Descriptor::Amw | Descriptor::FractionCSp3
            | Descriptor::LabuteAsa | Descriptor::Tpsa | Descriptor::CrippenClogP
            | Descriptor::CrippenMr | Descriptor::Chi0v | Descriptor::Chi1v | Descriptor::Chi2v
            | Descriptor::Chi3v | Descriptor::Chi4v | Descriptor::Chi0n | Descriptor::Chi1n
            | Descriptor::Chi2n | Descriptor::Chi3n | Descriptor::Chi4n
            | Descriptor::HallKierAlpha | Descriptor::Kappa1 | Descriptor::Kappa2
            | Descriptor::Kappa3 | Descriptor::Phi => false,
            _ => true,
        }
    }

    /// Position of the descriptor in the computed vector.
    pub fn position(&self) -> (r: usize)
        ensures
            r == self.index(),
            r < DESCRIPTOR_COUNT,
    {
        match self {
            Descriptor::ExactMw => 0,
            Descriptor::Amw => 1,
            Descriptor::LipinskiHba => 2,
            Descriptor::LipinskiHbd => 3,
            Descriptor::NumRotatableBonds => 4,
            Descriptor::NumHbd => 5,
            Descriptor::NumHba => 6,
            Descriptor::NumHeavyAtoms => 7,
            Descriptor::NumAtoms => 8,
            Descriptor::NumHeteroatoms => 9,
            Descriptor::NumAmideBonds => 10,
            Descriptor::FractionCSp3 => 11,
            Descriptor::NumRings => 12,
            Descriptor::NumAromaticRings => 13,
            Descriptor::NumAliphaticRings => 14,
            Descriptor::NumSaturatedRings => 15,
            Descriptor::NumHeterocycles => 16,
            Descriptor::NumAromaticHeterocycles => 17,
            Descriptor::NumSaturatedHeterocycles => 18,
            Descriptor::NumAliphaticHeterocycles => 19,
            Descriptor::NumSpiroAtoms => 20,
            Descriptor::NumBridgeheadAtoms => 21,
            Descriptor::NumAtomStereoCenters => 22,
            Descriptor::NumUnspecifiedAtomStereoCenters => 23,
            Descriptor::LabuteAsa => 24,
            Descriptor::Tpsa => 25,
            Descriptor::CrippenClogP => 26,
            Descriptor::CrippenMr => 27,
            Descriptor::Chi0v => 28,
            Descriptor::Chi1v => 29,
            Descriptor::Chi2v => 30,
            Descriptor::Chi3v => 31,
            Descriptor::Chi4v => 32,
            Descriptor::Chi0n => 33,
            Descriptor::Chi1n => 34,
            Descriptor::Chi2n => 35,
            Descriptor::Chi3n => 36,
            Descriptor::Chi4n => 37,
            Descriptor::HallKierAlpha => 38,
            Descriptor::Kappa1 => 39,
            Descriptor::Kappa2 => 40,
            Descriptor::Kappa3 => 41,
            Descriptor::Phi => 42,
        }
    }

    /// The descriptor at position `i` of the vector; `None` past its end.
    pub fn from_position(i: usize) -> (r: Option<Descriptor>)
        ensures
            r == descriptor_at(i as int),
    {
        match i {
            0 => Some(Descriptor::ExactMw),
            1 => Some(Descriptor::Amw),
            2 => Some(Descriptor::LipinskiHba),
            3 => Some(Descriptor::LipinskiHbd),
            4 => Some(Descriptor::NumRotatableBonds),
            5 => Some(Descriptor::NumHbd),
            6 => Some(Descriptor::NumHba),
            7 => Some(Descriptor::NumHeavyAtoms),
            8 => Some(Descriptor::NumAtoms),
            9 => Some(Descriptor::NumHeteroatoms),
            10 => Some(Descriptor::NumAmideBonds),
            11 => Some(Descriptor::FractionCSp3),
            12 => Some(Descriptor::NumRings),
            13 => Some(Descriptor::NumAromaticRings),
            14 => Some(Descriptor::NumAliphaticRings),
            15 => Some(Descriptor::NumSaturatedRings),
            16 => Some(Descriptor::NumHeterocycles),
            17 => Some(Descriptor::NumAromaticHeterocycles),
            18 => Some(Descriptor::NumSaturatedHeterocycles),
            19 => Some(Descriptor::NumAliphaticHeterocycles),
            20 => Some(Descriptor::NumSpiroAtoms),
            21 => Some(Descriptor::NumBridgeheadAtoms),
            22 => Some(Descriptor::NumAtomStereoCenters),
            23 => Some(Descriptor::NumUnspecifiedAtomStereoCenters),
            24 => Some(Descriptor::LabuteAsa),
            25 => Some(Descriptor::Tpsa),
            26 => Some(Descriptor::CrippenClogP),
            27 => Some(Descriptor::CrippenMr),
            28 => Some(Descriptor::Chi0v),
            29 => Some(Descriptor::Chi1v),
            30 => Some(Descriptor::Chi2v),
            31 => Some(Descriptor::Chi3v),
            32 => Some(Descriptor::Chi4v),
            33 => Some(Descriptor::Chi0n),
            34 => Some(Descriptor::Chi1n),
            35 => Some(Descriptor::Chi2n),
            36 => Some(Descriptor::Chi3n),
            37 => Some(Descriptor::Chi4n),
            38 => Some(Descriptor::HallKierAlpha),
            39 => Some(Descriptor::Kappa1),
            40 => Some(Descriptor::Kappa2),
            41 => Some(Descriptor::Kappa3),
            42 => Some(Descriptor::Phi),
            _ => None,
        }
    }

    /// Whether the descriptor's value is a count, which callers read as a
    /// whole number.
    pub fn is_count(&self) -> (r: bool)
        ensures
            r == self.counts(),
    {
        let p = self.position();
        (2 <= p && p <= 10) || (12 <= p && p <= 23)
    }
}

/// Every descriptor has a position inside the vector, and the position leads
/// back to it.
pub proof fn lemma_position_round_trip(d: Descriptor)
    ensures
        0 <= d.index() < DESCRIPTOR_COUNT,
        descriptor_at(d.index()) == Some(d),
{
}

/// Every position inside the vector holds a descriptor, whose position it is;
/// no position outside holds one.
pub proof fn lemma_descriptor_at_round_trip(i: int)
    ensures
        0 <= i < DESCRIPTOR_COUNT <==> descriptor_at(i) is Some,
        descriptor_at(i) matches Some(d) ==> d.index() == i,
{
}

/// Distinct descriptors stand at distinct positions.
pub proof fn lemma_position_injective(a: Descriptor, b: Descriptor)
    requires
        a.index() == b.index(),
    ensures
        a == b,
{
    lemma_position_round_trip(a);
    lemma_position_round_trip(b);
}

/// Why the engine's output could not be read as a descriptor vector.
#[derive(Clone, Copy, Debug, PartialEq, Eq, Structural)]
pub enum DescriptorError {
    /// The vector does not hold one value for each descriptor.
    WrongCount { expected: usize, found: usize },
    /// The engine reported no descriptor names.
    NoNames,
    /// The engine reported a different number of names than of values.
    LengthMismatch { names: usize, values: usize },
}

/// A vector that holds exactly one value for each descriptor, in the order of
/// their positions.
pub struct DescriptorVector<V> {
    values: Vec<V>,
}

impl<V> View for DescriptorVector<V> {
    type V = Seq<V>;

    closed spec fn view(&self) -> Seq<V> {
        self.values@
    }
}

impl<V> DescriptorVector<V> {
    #[verifier::type_invariant]
    spec fn holds_one_per_descriptor(self) -> bool {
        self.values.len() == DESCRIPTOR_COUNT
    }

    /// Takes the values in position order. Fails unless there is exactly one
    /// value for each descriptor.
    pub fn from_values(values: Vec<V>) -> (r: Result<DescriptorVector<V>, DescriptorError>)
        ensures
            values.len() == DESCRIPTOR_COUNT <==> r is Ok,
            r matches Ok(v) ==> v@ == values@,
            r matches Err(e) ==> e == (DescriptorError::WrongCount {
                expected: DESCRIPTOR_COUNT,
                found: values.len(),
            }),
    {
        if values.len() == DESCRIPTOR_COUNT {
            Ok(DescriptorVector { values })
        } else {
            Err(DescriptorError::WrongCount { expected: DESCRIPTOR_COUNT, found: values.len() })
        }
    }

    /// The value of descriptor `d`.
    pub fn get(&self, d: Descriptor) -> (r: &V)
        ensures
            self@.len() == DESCRIPTOR_COUNT,
            *r == self@[d.index()],
    {
        proof {
            use_type_invariant(self);
        }
        &self.values[d.position()]
    }

    /// The values, in position order.
    pub fn into_values(self) -> (r: Vec<V>)
        ensures
            r@ == self@,
            r@.len() == DESCRIPTOR_COUNT,
    {
        proof {
            use_type_invariant(&self);
        }
        self.values
    }
}

/// Pairs each descriptor name with the value at the same position. Fails when
/// there are no names, or when the two sequences differ in length.
pub fn label_values<V: Copy>(names: &Vec<String>, values: &Vec<V>) -> (r: Result<
    Vec<(String, V)>,
    DescriptorError,
>)
    ensures
        names.len() == 0 ==> r == Err::<Vec<(String, V)>, DescriptorError>(
            DescriptorError::NoNames,
        ),
        names.len() != 0 && names.len() != values.len() ==> r == Err::<
            Vec<(String, V)>,
            DescriptorError,
        >(DescriptorError::LengthMismatch { names: names.len(), values: values.len() }),
        names.len() != 0 && names.len() == values.len() ==> r is Ok,
        r matches Ok(pairs) ==> {
            &&& pairs@.len() == names@.len()
            &&& forall|i: int|
                0 <= i < pairs@.len() ==> #[trigger] pairs@[i].0@ == names@[i]@ && pairs@[i].1
                    == values@[i]
        },
{
    if names.len() == 0 {
        return Err(DescriptorError::NoNames);
    }
    if names.len() != values.len() {
        return Err(DescriptorError::LengthMismatch { names: names.len(), values: values.len() });
    }
    let mut pairs: Vec<(String, V)> = Vec::new();
    let mut i: usize = 0;
    while i < names.len()
        invariant
            i <= names.len(),
            names.len() == values.len(),
            pairs@.len() == i,
            forall|j: int|
                0 <= j < i ==> #[trigger] pairs@[j].0@ == names@[j]@ && pairs@[j].1 == values@[j],
        decreases names.len() - i,
    {
        let v: V = values[i];
        pairs.push((names[i].clone(), v));
        i = i + 1;
    }
    Ok(pairs)
}

} // verus!
