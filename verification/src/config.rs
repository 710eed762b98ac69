//! Where the image and the model are found, and the names under which the
//! model declares its input and its output.

use vstd::prelude::*;
use vstd::string::*;

verus! {

/// The paths and names one classification works with.
#[derive(Debug, PartialEq, Eq)]
pub struct Config {
    /// The image to classify, a JPEG file.
    pub image_path: String,
    /// The directory that holds the exported model.
    pub model_dir: String,
    /// Where the resized image is written when a debug copy is asked for.
    pub debug_path: String,
    /// The name of the model's input in its serving signature.
    pub input_tensor_name: String,
    /// The name of the model's output in its serving signature.
    pub output_tensor_name: String,
    /// The tag under which the model was exported for serving.
    pub serving_tag: String,
}

/// What a `Config` holds, each text as a sequence of characters.
pub struct ConfigView {
    pub image_path: Seq<char>,
    pub model_dir: Seq<char>,
    pub debug_path: Seq<char>,
    pub input_tensor_name: Seq<char>,
    pub output_tensor_name: Seq<char>,
    pub serving_tag: Seq<char>,
}

impl View for Config {
    type V = ConfigView;

    open spec fn view(&self) -> ConfigView {
        ConfigView {
            image_path: self.image_path@,
            model_dir: self.model_dir@,
            debug_path: self.debug_path@,
            input_tensor_name: self.input_tensor_name@,
            output_tensor_name: self.output_tensor_name@,
            serving_tag: self.serving_tag@,
        }
    }
}

/// The configuration of the sample run: the sample image, the model in the
/// directory `model`, and the names the sample model was exported with.
pub open spec fn sample_config() -> ConfigView {
    ConfigView {
        image_path: "sample_images/macaque.jpg"@,
        model_dir: "model"@,
        debug_path: "sample_images/small.png"@,
        input_tensor_name: "input_1"@,
        output_tensor_name: "Predictions"@,
        serving_tag: "serve"@,
    }
}

impl Default for Config {
    /// The configuration of the sample run.
    fn default() -> (c: Config)
        ensures
            c@ == sample_config(),
    {
        Config {
            image_path: String::from_str("sample_images/macaque.jpg"),
            model_dir: String::from_str("model"),
            debug_path: String::from_str("sample_images/small.png"),
            input_tensor_name: String::from_str("input_1"),
            output_tensor_name: String::from_str("Predictions"),
            serving_tag: String::from_str("serve"),
        }
    }
}

impl Clone for Config {
    fn clone(&self) -> (c: Config)
        ensures
            c == *self,
    {
        Config {
            image_path: self.image_path.clone(),
            model_dir: self.model_dir.clone(),
            debug_path: self.debug_path.clone(),
            input_tensor_name: self.input_tensor_name.clone(),
            output_tensor_name: self.output_tensor_name.clone(),
            serving_tag: self.serving_tag.clone(),
        }
    }
}

} // verus!
