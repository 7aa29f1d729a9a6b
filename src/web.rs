use vstd::prelude::*;
use vstd::string::*;

verus! {

/// The model that the analysis endpoint uses when a request names none.
pub fn default_model() -> (r: String)
    ensures
        r@ == "gpt-4o"@,
{
    String::from_str("gpt-4o")
}

/// Why an upload holds no usable image.
#[derive(Clone, Debug)]
pub enum UploadError {
    /// The form has no field.
    NoField,
    /// The first field is not named `image`; its name, if any.
    WrongField { name: Option<String> },
    /// The image field is empty.
    EmptyData,
}

/// Checks the name of the first field of an upload: it must be `image`.
pub fn check_field_name(name: Option<&str>) -> (r: Result<(), UploadError>)
    ensures
        match name {
            Some(n) => if n@ == "image"@ {
                r is Ok
            } else {
                r matches Err(UploadError::WrongField { name: Some(m) }) && m@ == n@
            },
            None => r matches Err(UploadError::WrongField { name: None }),
        },
{
    match name {
        Some(n) => {
            let given = String::from_str(n);
            let expected = String::from_str("image");
            if given == expected {
                Ok(())
            } else {
                Err(UploadError::WrongField { name: Some(given) })
            }
        },
        None => Err(UploadError::WrongField { name: None }),
    }
}

/// Checks that the image field holds data.
pub fn check_image_data(len: usize) -> (r: Result<(), UploadError>)
    ensures
        len == 0 ==> r matches Err(UploadError::EmptyData),
        len > 0 ==> r is Ok,
{
    if len == 0 {
        Err(UploadError::EmptyData)
    } else {
        Ok(())
    }
}

} // verus!
