//! Screenshots of the test program and their comparison with templates.

use vstd::prelude::*;
use vstd::string::*;
use crate::tools::utilities::get_path_to_python_scripts;

verus! {

/// The number of bytes of a screenshot of the given size, three for each
/// pixel, where the size is not negative and the number is within the range
/// of the size's type.
pub open spec fn screen_bytes(width: i32, height: i32) -> Option<int> {
    if width >= 0 && height >= 0 && width * height * 3 <= i32::MAX {
        Some(width * height * 3)
    } else {
        None
    }
}

/// The size of the buffer that takes a screenshot, or nothing where the
/// surface has no such size.
pub fn screen_buffer_size(width: i32, height: i32) -> (buffer_size: Option<usize>)
    ensures
        buffer_size is Some <==> screen_bytes(width, height) is Some,
        buffer_size matches Some(size) ==> Some(size as int) == screen_bytes(width, height),
{
    if width < 0 || height < 0 {
        return None;
    }
    assert(0 <= width * height <= 0x7FFF_FFFF * 0x7FFF_FFFF) by (nonlinear_arith)
        requires
            0 <= width <= 0x7FFF_FFFF,
            0 <= height <= 0x7FFF_FFFF,
    ;
    let pixels: i64 = (width as i64) * (height as i64);
    if pixels > 0x7FFF_FFFF / 3 {
        return None;
    }
    Some((pixels * 3) as usize)
}

/// The file that the screenshot of a test is saved in, and the script that
/// compares it with the template, as seen from the directory that the
/// program is started in.
pub fn comparison_files(template_image_name: &str, current_dir_name: &str) -> (files: (
    String,
    String,
))
    ensures
        files.0@ == "test_result_"@ + template_image_name@,
        files.1@ == (if current_dir_name@ == "e2e-tests"@ {
            "src/tools/python_scripts/"@
        } else {
            "e2e-tests/src/tools/python_scripts/"@
        }) + "compare_images.py"@,
{
    let image: String = String::from_str("test_result_").concat(template_image_name);
    let script: String = get_path_to_python_scripts(current_dir_name).concat("compare_images.py");
    (image, script)
}

} // verus!
