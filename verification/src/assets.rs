//! The texts that are compiled into the tool: the resume template, the JSON
//! Schemas, the system prompts and the structured-output blocks. The template
//! feeds the key of the baseline cache, so editing it invalidates the cache.

use vstd::prelude::*;

verus! {

/// The layout of the baseline resume.
pub const RESUME_TEMPLATE: &'static str = r#"# {full_name}
{email} | {phone} | {linkedin_url} | {location}


## Professional Summary
{professional_summary}


## Skills
* **{category}:** {items}


## Work Experience


**{job_title}** | **{company_name}**
{location} | {start_date} – {end_date}
* {bullet}


## Education


**{degree_name}**
{institution}, {location} | {graduation_date}


## Certifications
* **{title}**, {issuing_organization}, {year}
"#;

/// JSON Schema of the resume document.
pub const YAML_SCHEMA: &'static str = r#"{
  "$schema": "http://json-schema.org/draft-07/schema#",
  "title": "Resume",
  "type": "object",
  "additionalProperties": false,
  "required": [
    "cv"
  ],
  "properties": {
    "cv": {
      "type": "object",
      "additionalProperties": false,
      "required": [
        "personal_information",
        "professional_summary"
      ],
      "properties": {
        "personal_information": {
          "type": "object",
          "additionalProperties": false,
          "required": [
            "full_name",
            "email",
            "phone",
            "linkedin_url",
            "location"
          ],
          "properties": {
            "full_name": {
              "type": "string"
            },
            "email": {
              "type": "string"
            },
            "phone": {
              "type": "string"
            },
            "linkedin_url": {
              "type": "string"
            },
            "location": {
              "type": "string"
            }
          }
        },
        "professional_summary": {
          "type": "string"
        },
        "skills": {
          "type": "array",
          "items": {
            "type": "object",
            "additionalProperties": false,
            "required": [
              "category"
            ],
            "properties": {
              "category": {
                "type": "string"
              },
              "items": {
                "type": "array",
                "items": {
                  "type": "string"
                }
              }
            }
          }
        },
        "work_experience": {
          "type": "array",
          "items": {
            "type": "object",
            "additionalProperties": false,
            "required": [
              "job_title",
              "company_name",
              "location",
              "start_date",
              "end_date"
            ],
            "properties": {
              "job_title": {
                "type": "string"
              },
              "company_name": {
                "type": "string"
              },
              "location": {
                "type": "string"
              },
              "start_date": {
                "type": "string"
              },
              "end_date": {
                "type": "string"
              },
              "bullets": {
                "type": "array",
                "items": {
                  "type": "string"
                }
              }
            }
          }
        },
        "education": {
          "type": "array",
          "items": {
            "type": "object",
            "additionalProperties": false,
            "required": [
              "degree_name",
              "institution",
              "location",
              "graduation_date"
            ],
            "properties": {
              "degree_name": {
                "type": "string"
              },
              "institution": {
                "type": "string"
              },
              "location": {
                "type": "string"
              },
              "graduation_date": {
                "type": "string"
              }
            }
          }
        },
        "certifications": {
          "type": "array",
          "items": {
            "type": "object",
            "additionalProperties": false,
            "required": [
              "title",
              "issuing_organization",
              "year"
            ],
            "properties": {
              "title": {
                "type": "string"
              },
              "issuing_organization": {
                "type": "string"
              },
              "year": {
                "type": "string"
              }
            }
          }
        }
      }
    }
  }
}
"#;

/// System prompt of the scrape-to-Markdown call.
pub const PROMPT_SCRAPE_TO_MARKDOWN: &'static str = r#"Extract the primary job posting from the provided HTML.

**Extraction Rules:**

1. Identify the primary job posting on the page. If multiple exist, extract only the main one.
2. Extract the job title and the full job description (including company, location, employment type, responsibilities, requirements, and benefits).
3. Exclude all non-posting content: navigation, footers, cookie banners, related jobs, ads, application forms, recruiter marketing, and legal boilerplate.
4. Preserve the exact original wording and language. Do not paraphrase, summarize, translate, or invent content.
5. Format the description as clean Markdown:
   - Use `##` headings for logical sections, preferring the source's exact labels.
   - Use bullet points for lists.
   - Preserve original paragraph breaks.
   - Exclude all HTML tags, tables, images, and links.
6. If the page does not contain a job posting, extract the page's main content on a best-effort basis. Do not refuse the request.
"#;

/// System prompt of the keyword-extraction call.
pub const PROMPT_KEYWORD_EXTRACTION: &'static str = r#"Extract, categorize, and rank Applicant Tracking System (ATS) keywords from the provided job description based on the following algorithmic rules.

**Task 1: Extraction and Categorization**
Parse the input text and extract all relevant keywords into these specific categories:

- **Hard Skills and Tools:** Programming languages, software platforms, technical workflows, and methodologies.
- **Soft Skills and Competencies:** Leadership, cross-functional collaboration, problem-solving, and communication abilities.
- **Industry-Specific Terminology:** Sector-specific jargon, performance metrics, and regulatory frameworks (e.g., HIPAA, KPIs, return on investment).
- **Certifications and Credentials:** Required degrees, professional licenses, and formal certifications.
- **Job Titles and Seniority:** Exact role titles and leadership scope indicators (e.g., strategic planning, change management).
  Whenever a term includes an acronym, extract both the fully spelled-out form and its abbreviation (e.g., "Search Engine Optimization (SEO)" or "Customer Relationship Management (CRM)").

**Task 2: Semantic Grouping**
Because modern ATS platforms utilize Natural Language Processing (NLP) to evaluate semantic equivalents, group contextually related terms together within your extracted lists. For example, cluster variations like "project management," "managing projects," and "program coordination" as a single semantic entity.

**Task 3: Algorithmic Ranking**
Rank the extracted keyword clusters in descending order of importance based on standard ATS scoring parameters:

- **Keyword Frequency:** Assign the highest weight to terms that appear multiple times throughout the job description.
- **Document Location:** Prioritize terms explicitly located under mandatory headers such as "Requirements," "Qualifications," or "Preferred Experience".
- **Skill Weighting:** Rank technical requirements, hard skills, and tools significantly higher than soft skills, as technical competencies typically account for 40% to 60% of the total ATS relevance score.

**System Constraints & Output Format:**

- Only extract terms explicitly stated or directly semantically implied within the provided text. Do not hallucinate or inject external industry buzzwords.
- Mirror the exact language used by the employer whenever possible, as some systems enforce literal matching.
- Format the final output strictly as a structured JSON object containing the categorized and ranked keyword clusters.
"#;

/// System prompt of the resume-optimization call.
pub const PROMPT_RESUME_OPTIMIZATION: &'static str = r#"Rewrite the provided resume so that it mirrors the language of the provided keyword list, without changing a single fact.

**Rules:**

1. Keep the structure of the resume: the same headings, in the same order, with the same contact line, employers, titles, dates, degrees, and certifications.
2. Weave the keywords into the summary, the skills, and the bullets wherever the resume already supports them. Prefer keywords with a higher score.
3. Use the exact wording of each keyword. Where an acronym is given, write the spelled-out form together with the acronym on first use.
4. Never invent employers, titles, dates, numbers, tools, degrees, or certifications. Leave out any keyword that the resume does not support.
5. Keep the keyword density natural: between two and five percent of all words.
6. Start each bullet with a strong verb and keep every metric that the resume states.

**Output:**

Return only the rewritten resume as Markdown. Do not wrap it in a code block and do not add commentary.
"#;

/// `response_format` block of the keyword-extraction call.
pub const KEYWORD_RESPONSE_FORMAT: &'static str = r#"{
  "type": "json_schema",
  "json_schema": {
    "name": "ats_keyword_extraction",
    "strict": true,
    "schema": {
      "type": "object",
      "additionalProperties": false,
      "required": [
        "hard_skills_and_tools",
        "soft_skills_and_competencies",
        "industry_specific_terminology",
        "certifications_and_credentials",
        "job_titles_and_seniority"
      ],
      "properties": {
        "hard_skills_and_tools": {
          "type": "array",
          "items": {
            "type": "object",
            "additionalProperties": false,
            "required": [
              "primary_term",
              "acronym",
              "semantic_cluster",
              "importance_score"
            ],
            "properties": {
              "primary_term": {
                "type": "string"
              },
              "acronym": {
                "type": "string"
              },
              "semantic_cluster": {
                "type": "string"
              },
              "importance_score": {
                "type": "integer"
              }
            }
          }
        },
        "soft_skills_and_competencies": {
          "type": "array",
          "items": {
            "type": "object",
            "additionalProperties": false,
            "required": [
              "primary_term",
              "semantic_cluster",
              "importance_score"
            ],
            "properties": {
              "primary_term": {
                "type": "string"
              },
              "semantic_cluster": {
                "type": "string"
              },
              "importance_score": {
                "type": "integer"
              }
            }
          }
        },
        "industry_specific_terminology": {
          "type": "array",
          "items": {
            "type": "object",
            "additionalProperties": false,
            "required": [
              "primary_term",
              "acronym",
              "importance_score"
            ],
            "properties": {
              "primary_term": {
                "type": "string"
              },
              "acronym": {
                "type": "string"
              },
              "importance_score": {
                "type": "integer"
              }
            }
          }
        },
        "certifications_and_credentials": {
          "type": "array",
          "items": {
            "type": "object",
            "additionalProperties": false,
            "required": [
              "primary_term",
              "importance_score"
            ],
            "properties": {
              "primary_term": {
                "type": "string"
              },
              "importance_score": {
                "type": "integer"
              }
            }
          }
        },
        "job_titles_and_seniority": {
          "type": "array",
          "items": {
            "type": "object",
            "additionalProperties": false,
            "required": [
              "primary_term",
              "importance_score"
            ],
            "properties": {
              "primary_term": {
                "type": "string"
              },
              "importance_score": {
                "type": "integer"
              }
            }
          }
        }
      }
    }
  }
}
"#;

/// `response_format` block of the scrape-to-Markdown call.
pub const SCRAPE_RESPONSE_FORMAT: &'static str = r#"{
  "type": "json_schema",
  "json_schema": {
    "name": "job_posting_extraction",
    "strict": true,
    "schema": {
      "type": "object",
      "additionalProperties": false,
      "required": [
        "title",
        "markdown"
      ],
      "properties": {
        "title": {
          "type": "string",
          "description": "The job title exactly as the page states it."
        },
        "markdown": {
          "type": "string",
          "description": "The full job description as clean Markdown."
        }
      }
    }
  }
}
"#;

} // verus!
