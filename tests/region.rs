use s3_multipart::region::bucket_region;

#[test]
fn command_region_comes_first() {
    assert_eq!(bucket_region(Some("eu-west-1".to_string()), Some("ap-south-1".to_string())), "eu-west-1");
}

#[test]
fn client_region_comes_next() {
    assert_eq!(bucket_region(None, Some("ap-south-1".to_string())), "ap-south-1");
}

#[test]
fn default_region_comes_last() {
    assert_eq!(bucket_region(None, None), "us-west-2");
}
