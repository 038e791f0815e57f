use m6a_cnn::engine::OUTPUT_COLUMNS;
use m6a_cnn::{
    batch_shape, positive_scores, select_model, ModelArtifact, PbChem, PredictError,
    PredictOptions, LAYERS, WINDOW,
};

fn opts(polymerase: PbChem, semi: bool) -> PredictOptions {
    PredictOptions { polymerase, semi }
}

#[test]
fn selection_follows_the_table() {
    assert_eq!(select_model(&opts(PbChem::Two, false)), ModelArtifact::Full2_0);
    assert_eq!(select_model(&opts(PbChem::Two, true)), ModelArtifact::Semi2_0);
    assert_eq!(select_model(&opts(PbChem::TwoPointTwo, false)), ModelArtifact::Full2_2);
    assert_eq!(select_model(&opts(PbChem::TwoPointTwo, true)), ModelArtifact::Semi2_2);
    assert_eq!(select_model(&opts(PbChem::Revio, false)), ModelArtifact::Full2_2);
    assert_eq!(select_model(&opts(PbChem::Revio, true)), ModelArtifact::SemiRevio);
}

#[test]
fn revio_modes_pick_different_networks() {
    assert_ne!(
        select_model(&opts(PbChem::Revio, false)),
        select_model(&opts(PbChem::Revio, true))
    );
}

#[test]
fn labels_name_chemistry_and_mode() {
    let all = [
        (ModelArtifact::Full2_0, "2.0 full", "2.0", false),
        (ModelArtifact::Semi2_0, "2.0 semi", "2.0", true),
        (ModelArtifact::Full2_2, "2.2 full", "2.2", false),
        (ModelArtifact::Semi2_2, "2.2 semi", "2.2", true),
        (ModelArtifact::SemiRevio, "Revio semi", "Revio", true),
    ];
    for (a, label, chem, semi) in all {
        assert_eq!(a.label(), label);
        assert_eq!(a.chemistry(), chem);
        assert_eq!(a.is_semi_supervised(), semi);
    }
    for (a, ..) in all {
        for (b, ..) in all {
            assert_eq!(a.label() == b.label(), a == b);
        }
    }
}

#[test]
fn revio_full_logs_as_two_point_two() {
    assert_eq!(select_model(&opts(PbChem::Revio, false)).chemistry(), "2.2");
}

#[test]
fn shape_for_zero_one_and_hundred_windows() {
    for k in [0usize, 1, 100] {
        let shape = batch_shape(k * LAYERS * WINDOW, k).unwrap();
        assert_eq!(shape, vec![k as i64, LAYERS as i64, WINDOW as i64]);
    }
}

#[test]
fn shape_of_one_window_is_six_by_fifteen() {
    assert_eq!(batch_shape(90, 1), Ok(vec![1, 6, 15]));
}

#[test]
fn shape_mismatch_is_reported() {
    assert_eq!(batch_shape(89, 1), Err(PredictError::ShapeMismatch));
    assert_eq!(batch_shape(91, 1), Err(PredictError::ShapeMismatch));
    assert_eq!(batch_shape(90, 0), Err(PredictError::ShapeMismatch));
    assert_eq!(batch_shape(0, 1), Err(PredictError::ShapeMismatch));
    assert_eq!(batch_shape(usize::MAX, usize::MAX), Err(PredictError::ShapeMismatch));
}

#[test]
fn scores_take_the_first_column() {
    let raw: Vec<f32> = vec![0.9, 0.1, 0.25, 0.75, 0.0, 1.0];
    assert_eq!(positive_scores(&raw, 3), Ok(vec![0.9f32, 0.25, 0.0]));
}

#[test]
fn scores_keep_the_window_count() {
    for k in [0usize, 1, 100] {
        let raw: Vec<i32> = (0..(OUTPUT_COLUMNS * k) as i32).collect();
        let scores = positive_scores(&raw, k).unwrap();
        assert_eq!(scores.len(), k);
        for (i, s) in scores.iter().enumerate() {
            assert_eq!(*s, 2 * i as i32);
        }
    }
}

#[test]
fn scores_reject_output_of_the_wrong_width() {
    let raw: Vec<f32> = vec![0.5, 0.5, 0.5];
    assert_eq!(positive_scores(&raw, 1), Err(PredictError::ForwardPass));
    assert_eq!(positive_scores(&raw, 2), Err(PredictError::ForwardPass));
    assert_eq!(positive_scores(&raw, usize::MAX), Err(PredictError::ForwardPass));
}

#[test]
fn scores_are_the_same_on_repeated_calls() {
    let raw: Vec<f32> = vec![0.125, 0.875, 0.5, 0.5];
    let a = positive_scores(&raw, 2).unwrap();
    let b = positive_scores(&raw, 2).unwrap();
    assert_eq!(
        a.iter().map(|x| x.to_bits()).collect::<Vec<_>>(),
        b.iter().map(|x| x.to_bits()).collect::<Vec<_>>()
    );
}

#[test]
fn two_point_two_full_on_one_zero_window() {
    let options = opts(PbChem::TwoPointTwo, false);
    assert_eq!(select_model(&options), ModelArtifact::Full2_2);
    let windows = vec![0.0f32; LAYERS * WINDOW];
    assert_eq!(batch_shape(windows.len(), 1), Ok(vec![1, 6, 15]));
}
