use vstd::prelude::*;

verus! {

/// Sequencing chemistry of the run being scored.
#[derive(Clone, Copy, Debug, PartialEq, Eq, Structural)]
pub enum PbChem {
    Two,
    TwoPointTwo,
    Revio,
}

/// The configuration that decides which pretrained network scores windows.
#[derive(Clone, Copy, Debug, PartialEq, Eq, Structural)]
pub struct PredictOptions {
    pub polymerase: PbChem,
    /// `true` for the semi-supervised network, `false` for the fully supervised one.
    pub semi: bool,
}

/// The five pretrained networks that ship with the library.
#[derive(Clone, Copy, Debug, PartialEq, Eq, Structural)]
pub enum ModelArtifact {
    Full2_0,
    Semi2_0,
    Full2_2,
    Semi2_2,
    SemiRevio,
}

/// The selection table: Revio reuses the fully supervised 2.2 network and has
/// a semi-supervised network of its own.
pub open spec fn model_for(chem: PbChem, semi: bool) -> ModelArtifact {
    match chem {
        PbChem::Two => if semi { ModelArtifact::Semi2_0 } else { ModelArtifact::Full2_0 },
        PbChem::TwoPointTwo => if semi { ModelArtifact::Semi2_2 } else { ModelArtifact::Full2_2 },
        PbChem::Revio => if semi { ModelArtifact::SemiRevio } else { ModelArtifact::Full2_2 },
    }
}

/// The chemistry whose network an artifact is, as written in log lines.
pub open spec fn chemistry_name(a: ModelArtifact) -> Seq<char> {
    match a {
        ModelArtifact::Full2_0 | ModelArtifact::Semi2_0 => "2.0"@,
        ModelArtifact::Full2_2 | ModelArtifact::Semi2_2 => "2.2"@,
        ModelArtifact::SemiRevio => "Revio"@,
    }
}

/// Whether an artifact is a semi-supervised network.
pub open spec fn semi_supervised(a: ModelArtifact) -> bool {
    match a {
        ModelArtifact::Full2_0 | ModelArtifact::Full2_2 => false,
        _ => true,
    }
}

/// A label naming an artifact: its chemistry and its supervision mode.
pub open spec fn label_of(a: ModelArtifact) -> Seq<char> {
    match a {
        ModelArtifact::Full2_0 => "2.0 full"@,
        ModelArtifact::Semi2_0 => "2.0 semi"@,
        ModelArtifact::Full2_2 => "2.2 full"@,
        ModelArtifact::Semi2_2 => "2.2 semi"@,
        ModelArtifact::SemiRevio => "Revio semi"@,
    }
}

/// Picks the network for a configuration; selection is total and has no fallback.
pub fn select_model(options: &PredictOptions) -> (r: ModelArtifact)
    ensures
        r == model_for(options.polymerase, options.semi),
        semi_supervised(r) == options.semi,
{
    match options.polymerase {
        PbChem::Two => if options.semi { ModelArtifact::Semi2_0 } else { ModelArtifact::Full2_0 },
        PbChem::TwoPointTwo => if options.semi { ModelArtifact::Semi2_2 } else { ModelArtifact::Full2_2 },
        PbChem::Revio => if options.semi { ModelArtifact::SemiRevio } else { ModelArtifact::Full2_2 },
    }
}

impl ModelArtifact {
    /// The label of this artifact, for log lines.
    pub fn label(&self) -> (r: &'static str)
        ensures
            r@ == label_of(*self),
    {
        match self {
            ModelArtifact::Full2_0 => "2.0 full",
            ModelArtifact::Semi2_0 => "2.0 semi",
            ModelArtifact::Full2_2 => "2.2 full",
            ModelArtifact::Semi2_2 => "2.2 semi",
            ModelArtifact::SemiRevio => "Revio semi",
        }
    }

    /// The chemistry this network was trained for.
    pub fn chemistry(&self) -> (r: &'static str)
        ensures
            r@ == chemistry_name(*self),
    {
        match self {
            ModelArtifact::Full2_0 | ModelArtifact::Semi2_0 => "2.0",
            ModelArtifact::Full2_2 | ModelArtifact::Semi2_2 => "2.2",
            ModelArtifact::SemiRevio => "Revio",
        }
    }

    /// Whether this is a semi-supervised network.
    pub fn is_semi_supervised(&self) -> (r: bool)
        ensures
            r == semi_supervised(*self),
    {
        match self {
            ModelArtifact::Full2_0 | ModelArtifact::Full2_2 => false,
            _ => true,
        }
    }
}

/// Every configuration resolves to the row of the selection table, the six
/// configurations reach all five networks, and only the two fully supervised
/// 2.2 and Revio configurations share one (Revio reuses the 2.2 network).
pub proof fn lemma_selection_table(a: PredictOptions, b: PredictOptions)
    ensures
        model_for(PbChem::Two, false) == ModelArtifact::Full2_0,
        model_for(PbChem::Two, true) == ModelArtifact::Semi2_0,
        model_for(PbChem::TwoPointTwo, false) == ModelArtifact::Full2_2,
        model_for(PbChem::TwoPointTwo, true) == ModelArtifact::Semi2_2,
        model_for(PbChem::Revio, false) == ModelArtifact::Full2_2,
        model_for(PbChem::Revio, true) == ModelArtifact::SemiRevio,
        model_for(a.polymerase, a.semi) == model_for(b.polymerase, b.semi) <==> (a == b || (
        !a.semi && !b.semi && a.polymerase != PbChem::Two && b.polymerase != PbChem::Two)),
{
}

/// Distinct networks carry distinct labels.
pub proof fn lemma_labels_distinct(a: ModelArtifact, b: ModelArtifact)
    ensures
        label_of(a) == label_of(b) <==> a == b,
{
    reveal_strlit("2.0 full");
    reveal_strlit("2.0 semi");
    reveal_strlit("2.2 full");
    reveal_strlit("2.2 semi");
    reveal_strlit("Revio semi");
    if a != b {
        assert(label_of(a)[0] != label_of(b)[0] || label_of(a)[4] != label_of(b)[4] || label_of(a)[2]
            != label_of(b)[2]);
    }
}

} // verus!
