use blocklet::renderer::{render_character, render_text, render_text_with_shadow};

#[test]
fn test_render_single_character() {
    let result = render_character('A', "standard");
    assert!(result.is_ok());
    let output = result.unwrap();
    assert!(output.contains("█"));
    println!("Character 'A':\n{}", output);
}

#[test]
fn test_render_simple_word() {
    let result = render_text("HI", "standard", 0, 5);
    assert!(result.is_ok());
    let output = result.unwrap();
    assert!(output.contains("█"));
    println!("Word 'HI':\n{}", output);
}

#[test]
fn test_render_with_numbers() {
    let result = render_text("TEST123", "standard", 0, 5);
    assert!(result.is_ok());
    let output = result.unwrap();
    assert!(output.contains("█"));
    println!("Text 'TEST123':\n{}", output);
}

#[test]
fn test_word_wrapping() {
    let result = render_text("HELLO WORLD", "standard", 20, 5);
    assert!(result.is_ok());
    let output = result.unwrap();
    println!("Text with wrapping:\n{}", output);

    // Wrapped text shows several blocks separated by blank lines.
    let lines: Vec<&str> = output.lines().collect();
    assert!(lines.len() > 5);
}

#[test]
fn test_empty_text() {
    let result = render_text("", "standard", 0, 5);
    assert!(result.is_ok());
    assert_eq!(result.unwrap(), "");
}

#[test]
fn test_invalid_font() {
    let result = render_text("TEST", "nonexistent", 0, 5);
    assert!(result.is_err());
}

#[test]
fn test_no_small_font() {
    let result = render_text("AB", "small", 0, 3);
    assert!(result.is_err());
}

#[test]
fn test_render_with_shadow() {
    let result = render_text_with_shadow("HI", "standard", 0, 7, true);
    assert!(result.is_ok());
    let output = result.unwrap();
    assert!(output.contains("█"));
    assert!(output.contains("═"));
    println!("Text with shadow 'HI':\n{}", output);

    let lines: Vec<&str> = output.lines().collect();
    assert_eq!(lines.len(), 7);
}

#[test]
fn test_render_without_shadow() {
    let result = render_text_with_shadow("HI", "standard", 0, 5, false);
    assert!(result.is_ok());
    let output = result.unwrap();
    assert!(output.contains("█"));
    assert!(!output.contains("═"));
    println!("Text without shadow 'HI':\n{}", output);

    let lines: Vec<&str> = output.lines().collect();
    assert_eq!(lines.len(), 5);
}

#[test]
fn test_shadow_offset() {
    let result = render_text_with_shadow("A", "standard", 0, 7, true);
    assert!(result.is_ok());
    let output = result.unwrap();
    let lines: Vec<&str> = output.lines().collect();

    // The sixth row carries the glyph's shadow.
    assert!(lines.len() == 7);
    assert!(lines[5].contains('═') || lines[5].contains('╝'));
}
