use sneakercopy::{build_output_file_name, build_output_path};

#[test]
fn test_build_output_file_name() {
    // (input, expectation)
    let results = [
        ("/tmp", "tmp.tarbox"),
        ("/tmp/test.txt", "test.txt.tarbox"),
        ("/tmp/тест.txt", "тест.txt.tarbox"),
    ];

    for (path, result) in results.iter() {
        let output_name = path.as_bytes().to_vec();
        assert_eq!(
            result.as_bytes().to_vec(),
            build_output_file_name(&output_name)
        );
    }
}

#[test]
fn test_build_output_path() {
    // (input path, output path, output is a directory, expectation)
    let results = [
        ("/tmp", "/", true, "/tmp.tarbox"),
        ("/tmp/test.txt", "/", true, "/test.txt.tarbox"),
        ("/tmp/тест.txt", "/", true, "/тест.txt.tarbox"),
        (
            "/tmp/example.txt",
            "/usr/local",
            true,
            "/usr/local/example.txt.tarbox",
        ),
        (
            "/tmp/example.txt",
            "/usr/local/example.tarbox",
            false,
            "/usr/local/example.tarbox",
        ),
    ];

    for (input_path, output_path, is_dir, result) in results.iter() {
        let input_path = input_path.as_bytes().to_vec();
        let output_path = output_path.as_bytes().to_vec();
        assert_eq!(
            result.as_bytes().to_vec(),
            build_output_path(&input_path, &output_path, *is_dir)
        );
    }
}
