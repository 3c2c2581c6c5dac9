use tokensbyte::response_scan::{count_response_images, extract_usage_json_string};

#[test]
fn counts_openai_data_items() {
    assert_eq!(count_response_images(r#"{"data":[{"url":"a"},{"b64_json":"x"},{"url":""}]}"#), Some(2));
    assert_eq!(count_response_images(r#"{"data":[{"url":["a","","b"]}]}"#), Some(2));
}

#[test]
fn declared_total_wins() {
    assert_eq!(count_response_images(r#"{"usage":{"generated_images":3},"data":[{"url":"a"}]}"#), Some(3));
    assert_eq!(count_response_images(r#"{"usage":{"image_count":5}}"#), Some(5));
}

#[test]
fn counts_async_result_images() {
    assert_eq!(
        count_response_images(r#"{"data":{"result":{"images":[{"url":"x"},{"image":"y"},{"other":1}]}}}"#),
        Some(2)
    );
}

#[test]
fn counts_gemini_parts() {
    let body = r#"{"candidates":[{"content":{"parts":[{"inlineData":{"data":"Zg=="}},{"text":"see https://x.com/a.png and http://y"}]}}]}"#;
    assert_eq!(count_response_images(body), Some(3));
    let md = r#"{"candidates":[{"content":{"parts":[{"text":"![a](data:image/png;base64,AA) ![b](data:image/png;base64,BB) https://z"}]}}]}"#;
    assert_eq!(count_response_images(md), Some(2));
}

#[test]
fn counts_dashscope_and_jimeng() {
    assert_eq!(count_response_images(r#"{"output":{"results":[{"url":"u"},{"code":"x"}]}}"#), Some(1));
    assert_eq!(count_response_images(r#"{"data":{"image_urls":["a","","b"]}}"#), Some(2));
    assert_eq!(count_response_images(r#"{"data":{"binary_data_base64":["QQ=="]}}"#), Some(1));
}

#[test]
fn counts_sse_streams() {
    let sse = "data: {\"data\":[{\"url\":\"a\"}]}\n\ndata: {\"data\":[{\"url\":\"b\"}]}\ndata: [DONE]\n";
    assert_eq!(count_response_images(sse), Some(2));
    let with_usage = "data: {\"data\":[{\"url\":\"a\"}]}\ndata: {\"usage\":{\"image_count\":4}}\n";
    assert_eq!(count_response_images(with_usage), Some(4));
}

#[test]
fn no_images_is_none() {
    assert_eq!(count_response_images(r#"{"choices":[{"message":{"content":"hi"}}]}"#), None);
    assert_eq!(count_response_images("plain text"), None);
}

#[test]
fn usage_excerpt_of_documents() {
    assert_eq!(
        extract_usage_json_string(r#"{"id":1,"usage":{"prompt_tokens":5}}"#).as_deref(),
        Some(r#"{"usage":{"prompt_tokens":5}}"#)
    );
    assert_eq!(
        extract_usage_json_string(r#"{"usageMetadata":{"totalTokenCount":7}}"#).as_deref(),
        Some(r#"{"usageMetadata":{"totalTokenCount":7}}"#)
    );
    assert_eq!(
        extract_usage_json_string(r#"{"final_result":{"usage":{"a":1}}}"#).as_deref(),
        Some(r#"{"final_result":{"usage":{"a":1}}}"#)
    );
    assert_eq!(
        extract_usage_json_string(r#"{"code":0,"data":{"usage":{"b":2}}}"#).as_deref(),
        Some(r#"{"usage":{"b":2}}"#)
    );
    assert_eq!(extract_usage_json_string(r#"{"x":1}"#), None);
}

#[test]
fn usage_excerpt_of_streams_is_the_last() {
    let sse = "data: {\"usage\":{\"a\":1}}\ndata: {\"x\":1}\ndata: {\"response\":{\"usage\":{\"b\":2}}}\ndata: [DONE]\n";
    assert_eq!(extract_usage_json_string(sse).as_deref(), Some(r#"{"usage":{"b":2}}"#));
    assert_eq!(extract_usage_json_string("data: {\"x\":1}\n"), None);
}
