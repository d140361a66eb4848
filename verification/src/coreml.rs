//! Inference with Core ML: tensor layout, and what its answers amount to.

use crate::text::joined;
use vstd::prelude::*;

verus! {

/// Why inference failed.
#[derive(Clone, Debug)]
pub enum CoreMlError {
    /// The model could not be loaded.
    ModelLoad(String),
    /// The input or output array could not be made.
    ArrayCreation(String),
    /// The input could not be wrapped.
    FeatureProvider(String),
    /// The prediction failed.
    Prediction(String),
    /// The output could not be read.
    OutputExtraction(String),
}

impl CoreMlError {
    /// The message of the error.
    pub open spec fn text(&self) -> Seq<char> {
        match *self {
            CoreMlError::ModelLoad(e) => "CoreML model load: "@ + e@,
            CoreMlError::ArrayCreation(e) => "CoreML array creation: "@ + e@,
            CoreMlError::FeatureProvider(e) => "CoreML feature provider: "@ + e@,
            CoreMlError::Prediction(e) => "CoreML prediction: "@ + e@,
            CoreMlError::OutputExtraction(e) => "CoreML output extraction: "@ + e@,
        }
    }

    /// The message of the error.
    pub fn message(&self) -> (text: String)
        ensures
            text@ == self.text(),
    {
        match self {
            CoreMlError::ModelLoad(e) => joined("CoreML model load: ", e.as_str()),
            CoreMlError::ArrayCreation(e) => joined("CoreML array creation: ", e.as_str()),
            CoreMlError::FeatureProvider(e) => joined("CoreML feature provider: ", e.as_str()),
            CoreMlError::Prediction(e) => joined("CoreML prediction: ", e.as_str()),
            CoreMlError::OutputExtraction(e) => joined("CoreML output extraction: ", e.as_str()),
        }
    }
}

/// Shape of a tensor: pictures, channels, rows, columns.
#[derive(Clone, Copy, Debug, PartialEq, Eq, Structural)]
pub struct TensorShape {
    /// Pictures.
    pub n: i64,
    /// Channels.
    pub c: i64,
    /// Rows.
    pub h: i64,
    /// Columns.
    pub w: i64,
}

impl TensorShape {
    /// Position of an element, counted in elements, where rows follow one
    /// another within a channel and channels within a picture.
    pub open spec fn position(self, n: int, c: int, y: int, x: int) -> int {
        ((n * self.c + c) * self.h + y) * self.w + x
    }
}

/// Elements between neighbours in each dimension.
#[derive(Clone, Copy, Debug, PartialEq, Eq, Structural)]
pub struct Strides {
    /// Between pictures.
    pub n: i64,
    /// Between channels.
    pub c: i64,
    /// Between rows.
    pub h: i64,
    /// Between columns.
    pub w: i64,
}

/// The strides of a dense tensor.
pub fn strides(shape: TensorShape) -> (strides: Strides)
    requires
        i64::MIN <= shape.c * shape.h <= i64::MAX,
        i64::MIN <= shape.h * shape.w <= i64::MAX,
        i64::MIN <= shape.c * shape.h * shape.w <= i64::MAX,
    ensures
        strides.n == shape.c * shape.h * shape.w,
        strides.c == shape.h * shape.w,
        strides.h == shape.w,
        strides.w == 1,
{
    Strides {
        n: shape.c * shape.h * shape.w,
        c: shape.h * shape.w,
        h: shape.w,
        w: 1,
    }
}

/// The strides lead to every element: stepping by them from the first element
/// reaches its position.
pub proof fn law_strides_address_elements(
    shape: TensorShape,
    n: int,
    c: int,
    y: int,
    x: int,
)
    ensures
        shape.position(n, c, y, x) == n * (shape.c * shape.h * shape.w) + c * (shape.h * shape.w)
            + y * shape.w + x,
{
    let (sc, sh, sw) = (shape.c as int, shape.h as int, shape.w as int);
    assert(((n * sc + c) * sh + y) * sw + x == n * (sc * sh * sw) + c * (sh * sw) + y * sw + x)
        by (nonlinear_arith);
}

/// What the calls of a prediction came to: an error text for each that failed,
/// and the shape of the output.
#[derive(Clone, Debug)]
pub struct PredictReport {
    /// Whether there is no input.
    pub tensor_is_null: bool,
    /// Why the input array could not be made.
    pub array: Option<String>,
    /// Why the input could not be wrapped.
    pub provider: Option<String>,
    /// Why the prediction failed.
    pub prediction: Option<String>,
    /// Whether the output is there.
    pub has_output: bool,
    /// Whether the output is an array.
    pub is_array: bool,
    /// The shape of the output.
    pub shape: Vec<i64>,
}

/// Number of detections in an output of the given shape.
pub open spec fn detection_count(shape: Seq<i64>) -> usize {
    if shape.len() >= 2 {
        shape[1] as usize
    } else {
        0
    }
}

/// The number of detections, or the first call that failed.
pub fn predict(report: &PredictReport) -> (outcome: Result<usize, CoreMlError>)
    ensures
        match outcome {
            Ok(n) => {
                &&& !report.tensor_is_null && report.array is None && report.provider is None
                &&& report.prediction is None && report.has_output && report.is_array
                &&& n == detection_count(report.shape@)
            },
            Err(e) => if report.tensor_is_null {
                e matches CoreMlError::ArrayCreation(t) && t@ == "null tensor pointer"@
            } else if let Some(reason) = report.array {
                e matches CoreMlError::ArrayCreation(t) && t@ == reason@
            } else if let Some(reason) = report.provider {
                e matches CoreMlError::FeatureProvider(t) && t@ == reason@
            } else if let Some(reason) = report.prediction {
                e matches CoreMlError::Prediction(t) && t@ == reason@
            } else if !report.has_output {
                e matches CoreMlError::OutputExtraction(t) && t@ == "output feature not found"@
            } else {
                !report.is_array && (e matches CoreMlError::OutputExtraction(t) && t@
                    == "output is not MLMultiArray"@)
            },
        },
{
    if report.tensor_is_null {
        return Err(CoreMlError::ArrayCreation("null tensor pointer".to_owned()));
    }
    if let Some(reason) = &report.array {
        return Err(CoreMlError::ArrayCreation(reason.as_str().to_owned()));
    }
    if let Some(reason) = &report.provider {
        return Err(CoreMlError::FeatureProvider(reason.as_str().to_owned()));
    }
    if let Some(reason) = &report.prediction {
        return Err(CoreMlError::Prediction(reason.as_str().to_owned()));
    }
    if !report.has_output {
        return Err(CoreMlError::OutputExtraction("output feature not found".to_owned()));
    }
    if !report.is_array {
        return Err(CoreMlError::OutputExtraction("output is not MLMultiArray".to_owned()));
    }
    if report.shape.len() >= 2 {
        Ok(report.shape[1] as usize)
    } else {
        Ok(0)
    }
}

/// The path of a model, if it is text, or why it cannot be loaded.
pub fn model_path(path: Option<String>) -> (checked: Result<String, CoreMlError>)
    ensures
        match checked {
            Ok(p) => path == Some(p),
            Err(e) => path is None && (e matches CoreMlError::ModelLoad(t) && t@
                == "invalid path"@),
        },
{
    match path {
        Some(p) => Ok(p),
        None => Err(CoreMlError::ModelLoad("invalid path".to_owned())),
    }
}

/// The elements of a tensor follow each other across, then down, then by channel, then by
/// picture: the one behind the last of a row is the first of the next.
pub proof fn law_elements_follow_each_other(shape: TensorShape, n: int, c: int, y: int, x: int)
    ensures
        shape.position(0, 0, 0, 0) == 0,
        shape.position(n, c, y, x + 1) == shape.position(n, c, y, x) + 1,
        shape.position(n, c, y + 1, 0) == shape.position(n, c, y, shape.w as int),
        shape.position(n, c + 1, 0, 0) == shape.position(n, c, shape.h as int, 0),
        shape.position(n + 1, 0, 0, 0) == shape.position(n, shape.c as int, 0, 0),
{
    let (sc, sh, sw) = (shape.c as int, shape.h as int, shape.w as int);
    assert(((0 * sc + 0) * sh + 0) * sw + 0 == 0) by (nonlinear_arith);
    assert(((n * sc + c) * sh + (y + 1)) * sw + 0 == ((n * sc + c) * sh + y) * sw + sw)
        by (nonlinear_arith);
    assert(((n * sc + (c + 1)) * sh + 0) * sw + 0 == ((n * sc + c) * sh + sh) * sw + 0)
        by (nonlinear_arith);
    assert((((n + 1) * sc + 0) * sh + 0) * sw + 0 == ((n * sc + sc) * sh + 0) * sw + 0)
        by (nonlinear_arith);
}

/// The number of detections is the second number of the shape, and none where there is none.
pub proof fn law_detections_are_the_second_dimension(shape: Seq<i64>)
    ensures
        shape.len() < 2 ==> detection_count(shape) == 0,
        shape.len() >= 2 && 0 <= shape[1] <= usize::MAX ==> detection_count(shape) == shape[1],
{
}

} // verus!
