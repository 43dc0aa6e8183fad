//! The built-in word lists.
//!
//! Three sizes of placeholder word lists, one text per role, split on
//! whitespace by `Petnames::new`. Every word is a letter-tagged token, so the
//! lists double as fixed data for exercising grouping and cardinality.

use vstd::prelude::*;

use crate::store::WordsView;
use crate::store::split_whitespace_spec;

verus! {

pub const SMALL_ADJECTIVES: &'static str = "afine0001 afine0002 afine0003 afine0004 afine0005 afine0006 afine0007 afine0008 afine0009 afine0010 afine0011 afine0012 afine0013 afine0014 afine0015 afine0016 afine0017 afine0018 afine0019 afine0020 afine0021 afine0022 afine0023 afine0024 afine0025 afine0026 afine0027 afine0028 afine0029 afine0030 afine0031 afine0032 afine0033 afine0034 afine0035 afine0036 afine0037 afine0038 afine0039 afine0040 afine0041 afine0042 afine0043 afine0044 afine0045 afine0046 afine0047 afine0048 afine0049 afine0050 afine0051 afine0052 afine0053 afine0054 afine0055 afine0056 afine0057 bfine0001 bfine0002 bfine0003 bfine0004 bfine0005 bfine0006 bfine0007 bfine0008 bfine0009 bfine0010 bfine0011 bfine0012 bfine0013 bfine0014 bfine0015 bfine0016 bfine0017 bfine0018 bfine0019 bfine0020 bfine0021 bfine0022 bfine0023 bfine0024 bfine0025 bfine0026 bfine0027 bfine0028 bfine0029 bfine0030 bfine0031 bfine0032 bfine0033 bfine0034 bfine0035 bfine0036 bfine0037 bfine0038 bfine0039 bfine0040 bfine0041 bfine0042 bfine0043 bfine0044 bfine0045 bfine0046 bfine0047 bfine0048 bfine0049 bfine0050 bfine0051 bfine0052 bfine0053 bfine0054 bfine0055 bfine0056 cfine0001 cfine0002 cfine0003 cfine0004 cfine0005 cfine0006 cfine0007 cfine0008 cfine0009 cfine0010 cfine0011 cfine0012 cfine0013 cfine0014 cfine0015 cfine0016 cfine0017 cfine0018 cfine0019 cfine0020 cfine0021 cfine0022 cfine0023 cfine0024 cfine0025 cfine0026 cfine0027 cfine0028 cfine0029 cfine0030 cfine0031 cfine0032 cfine0033 cfine0034 cfine0035 cfine0036 cfine0037 cfine0038 cfine0039 cfine0040 cfine0041 cfine0042 cfine0043 cfine0044 cfine0045 cfine0046 cfine0047 cfine0048 cfine0049 cfine0050 cfine0051 cfine0052 cfine0053 cfine0054 cfine0055 cfine0056 dfine0001 dfine0002 dfine0003 dfine0004 dfine0005 dfine0006 dfine0007 dfine0008 dfine0009 dfine0010 dfine0011 dfine0012 dfine0013 dfine0014 dfine0015 dfine0016 dfine0017 dfine0018 dfine0019 dfine0020 dfine0021 dfine0022 dfine0023 dfine0024 dfine0025 dfine0026 dfine0027 dfine0028 dfine0029 dfine0030 dfine0031 dfine0032 dfine0033 dfine0034 dfine0035 dfine0036 dfine0037 dfine0038 dfine0039 dfine0040 dfine0041 dfine0042 dfine0043 dfine0044 dfine0045 dfine0046 dfine0047 dfine0048 dfine0049 dfine0050 dfine0051 dfine0052 dfine0053 dfine0054 dfine0055 dfine0056 efine0001 efine0002 efine0003 efine0004 efine0005 efine0006 efine0007 efine0008 efine0009 efine0010 efine0011 efine0012 efine0013 efine0014 efine0015 efine0016 efine0017 efine0018 efine0019 efine0020 efine0021 efine0022 efine0023 efine0024 efine0025 efine0026 efine0027 efine0028 efine0029 efine0030 efine0031 efine0032 efine0033 efine0034 efine0035 efine0036 efine0037 efine0038 efine0039 efine0040 efine0041 efine0042 efine0043 efine0044 efine0045 efine0046 efine0047 efine0048 efine0049 efine0050 efine0051 efine0052 efine0053 efine0054 efine0055 efine0056 ffine0001 ffine0002 ffine0003 ffine0004 ffine0005 ffine0006 ffine0007 ffine0008 ffine0009 ffine0010 ffine0011 ffine0012 ffine0013 ffine0014 ffine0015 ffine0016 ffine0017 ffine0018 ffine0019 ffine0020 ffine0021 ffine0022 ffine0023 ffine0024 ffine0025 ffine0026 ffine0027 ffine0028 ffine0029 ffine0030 ffine0031 ffine0032 ffine0033 ffine0034 ffine0035 ffine0036 ffine0037 ffine0038 ffine0039 ffine0040 ffine0041 ffine0042 ffine0043 ffine0044 ffine0045 ffine0046 ffine0047 ffine0048 ffine0049 ffine0050 ffine0051 ffine0052 ffine0053 ffine0054 ffine0055 ffine0056 gfine0001 gfine0002 gfine0003 gfine0004 gfine0005 gfine0006 gfine0007 gfine0008 gfine0009 gfine0010 gfine0011 gfine0012 gfine0013 gfine0014 gfine0015 gfine0016 gfine0017 gfine0018 gfine0019 gfine0020 gfine0021 gfine0022 gfine0023 gfine0024 gfine0025 gfine0026 gfine0027 gfine0028 gfine0029 gfine0030 gfine0031 gfine0032 gfine0033 gfine0034 gfine0035 gfine0036 gfine0037 gfine0038 gfine0039 gfine0040 gfine0041 gfine0042 gfine0043 gfine0044 gfine0045 gfine0046 gfine0047 gfine0048 gfine0049 gfine0050 gfine0051 gfine0052 gfine0053 gfine0054 gfine0055 gfine0056 hfine0001 hfine0002 hfine0003 hfine0004 hfine0005 hfine0006 hfine0007 hfine0008 hfine0009 hfine0010 hfine0011 hfine0012 hfine0013 hfine0014 hfine0015 hfine0016 hfine0017 hfine0018 hfine0019 hfine0020 hfine0021 hfine0022 hfine0023 hfine0024 hfine0025 hfine0026 hfine0027 hfine0028 hfine0029 hfine0030 hfine0031 hfine0032 hfine0033 hfine0034 hfine0035 hfine0036 hfine0037 hfine0038 hfine0039 hfine0040 hfine0041 hfine0042 hfine0043 hfine0044 hfine0045 hfine0046 hfine0047 hfine0048 hfine0049 hfine0050 hfine0051 hfine0052 hfine0053 hfine0054 hfine0055 hfine0056";
pub const SMALL_ADVERBS: &'static str = "award0001 award0002 award0003 award0004 award0005 award0006 award0007 award0008 award0009 award0010 award0011 award0012 award0013 award0014 award0015 award0016 award0017 award0018 award0019 award0020 award0021 award0022 award0023 award0024 award0025 award0026 award0027 award0028 award0029 award0030 award0031 award0032 award0033 bward0001 bward0002 bward0003 bward0004 bward0005 bward0006 bward0007 bward0008 bward0009 bward0010 bward0011 bward0012 bward0013 bward0014 bward0015 bward0016 bward0017 bward0018 bward0019 bward0020 bward0021 bward0022 bward0023 bward0024 bward0025 bward0026 bward0027 bward0028 bward0029 bward0030 bward0031 bward0032 bward0033 cward0001 cward0002 cward0003 cward0004 cward0005 cward0006 cward0007 cward0008 cward0009 cward0010 cward0011 cward0012 cward0013 cward0014 cward0015 cward0016 cward0017 cward0018 cward0019 cward0020 cward0021 cward0022 cward0023 cward0024 cward0025 cward0026 cward0027 cward0028 cward0029 cward0030 cward0031 cward0032 cward0033 dward0001 dward0002 dward0003 dward0004 dward0005 dward0006 dward0007 dward0008 dward0009 dward0010 dward0011 dward0012 dward0013 dward0014 dward0015 dward0016 dward0017 dward0018 dward0019 dward0020 dward0021 dward0022 dward0023 dward0024 dward0025 dward0026 dward0027 dward0028 dward0029 dward0030 dward0031 dward0032 dward0033 eward0001 eward0002 eward0003 eward0004 eward0005 eward0006 eward0007 eward0008 eward0009 eward0010 eward0011 eward0012 eward0013 eward0014 eward0015 eward0016 eward0017 eward0018 eward0019 eward0020 eward0021 eward0022 eward0023 eward0024 eward0025 eward0026 eward0027 eward0028 eward0029 eward0030 eward0031 eward0032 eward0033 fward0001 fward0002 fward0003 fward0004 fward0005 fward0006 fward0007 fward0008 fward0009 fward0010 fward0011 fward0012 fward0013 fward0014 fward0015 fward0016 fward0017 fward0018 fward0019 fward0020 fward0021 fward0022 fward0023 fward0024 fward0025 fward0026 fward0027 fward0028 fward0029 fward0030 fward0031 fward0032 gward0001 gward0002 gward0003 gward0004 gward0005 gward0006 gward0007 gward0008 gward0009 gward0010 gward0011 gward0012 gward0013 gward0014 gward0015 gward0016 gward0017 gward0018 gward0019 gward0020 gward0021 gward0022 gward0023 gward0024 gward0025 gward0026 gward0027 gward0028 gward0029 gward0030 gward0031 gward0032 hward0001 hward0002 hward0003 hward0004 hward0005 hward0006 hward0007 hward0008 hward0009 hward0010 hward0011 hward0012 hward0013 hward0014 hward0015 hward0016 hward0017 hward0018 hward0019 hward0020 hward0021 hward0022 hward0023 hward0024 hward0025 hward0026 hward0027 hward0028 hward0029 hward0030 hward0031 hward0032";
pub const SMALL_NOUNS: &'static str = "akind0001 akind0002 akind0003 akind0004 akind0005 akind0006 akind0007 akind0008 akind0009 akind0010 akind0011 akind0012 akind0013 akind0014 akind0015 akind0016 akind0017 akind0018 akind0019 akind0020 akind0021 akind0022 akind0023 akind0024 akind0025 akind0026 akind0027 akind0028 akind0029 akind0030 akind0031 akind0032 akind0033 akind0034 akind0035 akind0036 akind0037 akind0038 akind0039 akind0040 akind0041 akind0042 akind0043 akind0044 akind0045 akind0046 akind0047 akind0048 akind0049 akind0050 akind0051 akind0052 akind0053 akind0054 akind0055 akind0056 akind0057 bkind0001 bkind0002 bkind0003 bkind0004 bkind0005 bkind0006 bkind0007 bkind0008 bkind0009 bkind0010 bkind0011 bkind0012 bkind0013 bkind0014 bkind0015 bkind0016 bkind0017 bkind0018 bkind0019 bkind0020 bkind0021 bkind0022 bkind0023 bkind0024 bkind0025 bkind0026 bkind0027 bkind0028 bkind0029 bkind0030 bkind0031 bkind0032 bkind0033 bkind0034 bkind0035 bkind0036 bkind0037 bkind0038 bkind0039 bkind0040 bkind0041 bkind0042 bkind0043 bkind0044 bkind0045 bkind0046 bkind0047 bkind0048 bkind0049 bkind0050 bkind0051 bkind0052 bkind0053 bkind0054 bkind0055 bkind0056 bkind0057 ckind0001 ckind0002 ckind0003 ckind0004 ckind0005 ckind0006 ckind0007 ckind0008 ckind0009 ckind0010 ckind0011 ckind0012 ckind0013 ckind0014 ckind0015 ckind0016 ckind0017 ckind0018 ckind0019 ckind0020 ckind0021 ckind0022 ckind0023 ckind0024 ckind0025 ckind0026 ckind0027 ckind0028 ckind0029 ckind0030 ckind0031 ckind0032 ckind0033 ckind0034 ckind0035 ckind0036 ckind0037 ckind0038 ckind0039 ckind0040 ckind0041 ckind0042 ckind0043 ckind0044 ckind0045 ckind0046 ckind0047 ckind0048 ckind0049 ckind0050 ckind0051 ckind0052 ckind0053 ckind0054 ckind0055 ckind0056 ckind0057 dkind0001 dkind0002 dkind0003 dkind0004 dkind0005 dkind0006 dkind0007 dkind0008 dkind0009 dkind0010 dkind0011 dkind0012 dkind0013 dkind0014 dkind0015 dkind0016 dkind0017 dkind0018 dkind0019 dkind0020 dkind0021 dkind0022 dkind0023 dkind0024 dkind0025 dkind0026 dkind0027 dkind0028 dkind0029 dkind0030 dkind0031 dkind0032 dkind0033 dkind0034 dkind0035 dkind0036 dkind0037 dkind0038 dkind0039 dkind0040 dkind0041 dkind0042 dkind0043 dkind0044 dkind0045 dkind0046 dkind0047 dkind0048 dkind0049 dkind0050 dkind0051 dkind0052 dkind0053 dkind0054 dkind0055 dkind0056 dkind0057 ekind0001 ekind0002 ekind0003 ekind0004 ekind0005 ekind0006 ekind0007 ekind0008 ekind0009 ekind0010 ekind0011 ekind0012 ekind0013 ekind0014 ekind0015 ekind0016 ekind0017 ekind0018 ekind0019 ekind0020 ekind0021 ekind0022 ekind0023 ekind0024 ekind0025 ekind0026 ekind0027 ekind0028 ekind0029 ekind0030 ekind0031 ekind0032 ekind0033 ekind0034 ekind0035 ekind0036 ekind0037 ekind0038 ekind0039 ekind0040 ekind0041 ekind0042 ekind0043 ekind0044 ekind0045 ekind0046 ekind0047 ekind0048 ekind0049 ekind0050 ekind0051 ekind0052 ekind0053 ekind0054 ekind0055 ekind0056 ekind0057 fkind0001 fkind0002 fkind0003 fkind0004 fkind0005 fkind0006 fkind0007 fkind0008 fkind0009 fkind0010 fkind0011 fkind0012 fkind0013 fkind0014 fkind0015 fkind0016 fkind0017 fkind0018 fkind0019 fkind0020 fkind0021 fkind0022 fkind0023 fkind0024 fkind0025 fkind0026 fkind0027 fkind0028 fkind0029 fkind0030 fkind0031 fkind0032 fkind0033 fkind0034 fkind0035 fkind0036 fkind0037 fkind0038 fkind0039 fkind0040 fkind0041 fkind0042 fkind0043 fkind0044 fkind0045 fkind0046 fkind0047 fkind0048 fkind0049 fkind0050 fkind0051 fkind0052 fkind0053 fkind0054 fkind0055 fkind0056 fkind0057 gkind0001 gkind0002 gkind0003 gkind0004 gkind0005 gkind0006 gkind0007 gkind0008 gkind0009 gkind0010 gkind0011 gkind0012 gkind0013 gkind0014 gkind0015 gkind0016 gkind0017 gkind0018 gkind0019 gkind0020 gkind0021 gkind0022 gkind0023 gkind0024 gkind0025 gkind0026 gkind0027 gkind0028 gkind0029 gkind0030 gkind0031 gkind0032 gkind0033 gkind0034 gkind0035 gkind0036 gkind0037 gkind0038 gkind0039 gkind0040 gkind0041 gkind0042 gkind0043 gkind0044 gkind0045 gkind0046 gkind0047 gkind0048 gkind0049 gkind0050 gkind0051 gkind0052 gkind0053 gkind0054 gkind0055 gkind0056 gkind0057 hkind0001 hkind0002 hkind0003 hkind0004 hkind0005 hkind0006 hkind0007 hkind0008 hkind0009 hkind0010 hkind0011 hkind0012 hkind0013 hkind0014 hkind0015 hkind0016 hkind0017 hkind0018 hkind0019 hkind0020 hkind0021 hkind0022 hkind0023 hkind0024 hkind0025 hkind0026 hkind0027 hkind0028 hkind0029 hkind0030 hkind0031 hkind0032 hkind0033 hkind0034 hkind0035 hkind0036 hkind0037 hkind0038 hkind0039 hkind0040 hkind0041 hkind0042 hkind0043 hkind0044 hkind0045 hkind0046 hkind0047 hkind0048 hkind0049 hkind0050 hkind0051 hkind0052 hkind0053 hkind0054 hkind0055 hkind0056 hkind0057";
pub const MEDIUM_ADJECTIVES: &'static str = "afine0001 afine0002 afine0003 afine0004 afine0005 afine0006 afine0007 afine0008 afine0009 afine0010 afine0011 afine0012 afine0013 afine0014 afine0015 afine0016 afine0017 afine0018 afine0019 afine0020 afine0021 afine0022 afine0023 afine0024 afine0025 afine0026 afine0027 afine0028 afine0029 afine0030 afine0031 afine0032 afine0033 afine0034 afine0035 afine0036 afine0037 afine0038 afine0039 afine0040 afine0041 afine0042 afine0043 afine0044 afine0045 afine0046 afine0047 afine0048 afine0049 afine0050 afine0051 afine0052 afine0053 afine0054 afine0055 afine0056 afine0057 afine0058 afine0059 afine0060 afine0061 afine0062 afine0063 afine0064 afine0065 afine0066 afine0067 afine0068 afine0069 afine0070 afine0071 afine0072 afine0073 afine0074 afine0075 afine0076 afine0077 afine0078 afine0079 afine0080 afine0081 afine0082 afine0083 afine0084 afine0085 afine0086 afine0087 afine0088 afine0089 afine0090 afine0091 afine0092 afine0093 afine0094 afine0095 afine0096 afine0097 afine0098 afine0099 afine0100 afine0101 afine0102 afine0103 afine0104 afine0105 afine0106 afine0107 afine0108 afine0109 afine0110 afine0111 afine0112 afine0113 afine0114 afine0115 afine0116 afine0117 afine0118 afine0119 afine0120 afine0121 afine0122 afine0123 afine0124 afine0125 afine0126 afine0127 afine0128 afine0129 afine0130 afine0131 afine0132 afine0133 afine0134 afine0135 afine0136 afine0137 afine0138 afine0139 afine0140 afine0141 afine0142 afine0143 afine0144 afine0145 afine0146 afine0147 afine0148 afine0149 afine0150 afine0151 afine0152 afine0153 afine0154 afine0155 afine0156 afine0157 afine0158 afine0159 afine0160 afine0161 afine0162 afine0163 afine0164 afine0165 afine0166 afine0167 afine0168 afine0169 afine0170 afine0171 afine0172 afine0173 afine0174 afine0175 afine0176 afine0177 afine0178 bfine0001 bfine0002 bfine0003 bfine0004 bfine0005 bfine0006 bfine0007 bfine0008 bfine0009 bfine0010 bfine0011 bfine0012 bfine0013 bfine0014 bfine0015 bfine0016 bfine0017 bfine0018 bfine0019 bfine0020 cfine0001 cfine0002 cfine0003 cfine0004 cfine0005 cfine0006 cfine0007 cfine0008 cfine0009 cfine0010 cfine0011 cfine0012 cfine0013 cfine0014 cfine0015 cfine0016 cfine0017 cfine0018 cfine0019 cfine0020 cfine0021 cfine0022 cfine0023 cfine0024 cfine0025 cfine0026 cfine0027 cfine0028 cfine0029 cfine0030 cfine0031 cfine0032 cfine0033 cfine0034 cfine0035 cfine0036 cfine0037 cfine0038 cfine0039 cfine0040 cfine0041 cfine0042 cfine0043 cfine0044 cfine0045 cfine0046 cfine0047 cfine0048 cfine0049 cfine0050 cfine0051 cfine0052 cfine0053 cfine0054 cfine0055 cfine0056 cfine0057 cfine0058 cfine0059 cfine0060 cfine0061 cfine0062 cfine0063 cfine0064 cfine0065 cfine0066 cfine0067 cfine0068 cfine0069 cfine0070 cfine0071 cfine0072 cfine0073 cfine0074 cfine0075 cfine0076 cfine0077 cfine0078 cfine0079 cfine0080 cfine0081 cfine0082 cfine0083 cfine0084 cfine0085 cfine0086 cfine0087 cfine0088 cfine0089 cfine0090 cfine0091 cfine0092 cfine0093 cfine0094 cfine0095 cfine0096 cfine0097 cfine0098 cfine0099 cfine0100 cfine0101 cfine0102 cfine0103 cfine0104 cfine0105 cfine0106 cfine0107 cfine0108 cfine0109 cfine0110 cfine0111 cfine0112 cfine0113 cfine0114 cfine0115 cfine0116 cfine0117 cfine0118 cfine0119 cfine0120 cfine0121 cfine0122 cfine0123 cfine0124 cfine0125 cfine0126 cfine0127 cfine0128 cfine0129 cfine0130 cfine0131 cfine0132 cfine0133 cfine0134 cfine0135 cfine0136 cfine0137 cfine0138 cfine0139 cfine0140 cfine0141 cfine0142 cfine0143 cfine0144 cfine0145 cfine0146 cfine0147 cfine0148 cfine0149 cfine0150 cfine0151 cfine0152 cfine0153 cfine0154 cfine0155 cfine0156 cfine0157 cfine0158 cfine0159 cfine0160 cfine0161 cfine0162 cfine0163 cfine0164 cfine0165 cfine0166 cfine0167 cfine0168 cfine0169 cfine0170 cfine0171 cfine0172 cfine0173 cfine0174 cfine0175 cfine0176 cfine0177 cfine0178 cfine0179 cfine0180 cfine0181 cfine0182 cfine0183 cfine0184 cfine0185 cfine0186 cfine0187 cfine0188 cfine0189 cfine0190 cfine0191 cfine0192 cfine0193 dfine0001 dfine0002 dfine0003 dfine0004 dfine0005 dfine0006 dfine0007 dfine0008 dfine0009 dfine0010 dfine0011 dfine0012 dfine0013 dfine0014 dfine0015 dfine0016 dfine0017 dfine0018 dfine0019 dfine0020 dfine0021 zfine0001 zfine0002 zfine0003 zfine0004 zfine0005 zfine0006 zfine0007 zfine0008 zfine0009 zfine0010 zfine0011 zfine0012 zfine0013 zfine0014 zfine0015 zfine0016 zfine0017 zfine0018 zfine0019 zfine0020 zfine0021 zfine0022 zfine0023 zfine0024 zfine0025 zfine0026 zfine0027 zfine0028 zfine0029 zfine0030 zfine0031 zfine0032 zfine0033 zfine0034 zfine0035 zfine0036 zfine0037 zfine0038 zfine0039 zfine0040 zfine0041 zfine0042 zfine0043 zfine0044 zfine0045 zfine0046 zfine0047 zfine0048 zfine0049 zfine0050 zfine0051 zfine0052 zfine0053 zfine0054 zfine0055 zfine0056 zfine0057 zfine0058 zfine0059 zfine0060 zfine0061 zfine0062 zfine0063 zfine0064 zfine0065 zfine0066 zfine0067 zfine0068 zfine0069 zfine0070 zfine0071 zfine0072 zfine0073 zfine0074 zfine0075 zfine0076 zfine0077 zfine0078 zfine0079 zfine0080 zfine0081 zfine0082 zfine0083 zfine0084 zfine0085 zfine0086 zfine0087 zfine0088 zfine0089 zfine0090 zfine0091 zfine0092 zfine0093 zfine0094 zfine0095 zfine0096 zfine0097 zfine0098 zfine0099 zfine0100 zfine0101 zfine0102 zfine0103 zfine0104 zfine0105 zfine0106 zfine0107 zfine0108 zfine0109 zfine0110 zfine0111 zfine0112 zfine0113 zfine0114 zfine0115 zfine0116 zfine0117 zfine0118 zfine0119 zfine0120 zfine0121 zfine0122 zfine0123 zfine0124 zfine0125 zfine0126 zfine0127 zfine0128 zfine0129 zfine0130 zfine0131 zfine0132 zfine0133 zfine0134 zfine0135 zfine0136 zfine0137 zfine0138 zfine0139 zfine0140 zfine0141 zfine0142 zfine0143 zfine0144 zfine0145 zfine0146 zfine0147 zfine0148 zfine0149 zfine0150 zfine0151 zfine0152 zfine0153 zfine0154 zfine0155 zfine0156 zfine0157 zfine0158 zfine0159 zfine0160 zfine0161 zfine0162 zfine0163 zfine0164 zfine0165 zfine0166 zfine0167 zfine0168 zfine0169 zfine0170 zfine0171 zfine0172 zfine0173 zfine0174 zfine0175 zfine0176 zfine0177 zfine0178 zfine0179 zfine0180 zfine0181 zfine0182 zfine0183 zfine0184 zfine0185 zfine0186 zfine0187 zfine0188 zfine0189 zfine0190 zfine0191 zfine0192 zfine0193 zfine0194 zfine0195 zfine0196 zfine0197 zfine0198 zfine0199 zfine0200 zfine0201 zfine0202 zfine0203 zfine0204 zfine0205 zfine0206 zfine0207 zfine0208 zfine0209 zfine0210 zfine0211 zfine0212 zfine0213 zfine0214 zfine0215 zfine0216 zfine0217 zfine0218 zfine0219 zfine0220 zfine0221 zfine0222 zfine0223 zfine0224 zfine0225 zfine0226 zfine0227 zfine0228 zfine0229 zfine0230 zfine0231 zfine0232 zfine0233 zfine0234 zfine0235 zfine0236 zfine0237 zfine0238 zfine0239 zfine0240 zfine0241 zfine0242 zfine0243 zfine0244 zfine0245 zfine0246 zfine0247 zfine0248 zfine0249 zfine0250 zfine0251 zfine0252 zfine0253 zfine0254 zfine0255 zfine0256 zfine0257 zfine0258 zfine0259 zfine0260 zfine0261 zfine0262 zfine0263 zfine0264 zfine0265 zfine0266 zfine0267 zfine0268 zfine0269 zfine0270 zfine0271 zfine0272 zfine0273 zfine0274 zfine0275 zfine0276 zfine0277 zfine0278 zfine0279 zfine0280 zfine0281 zfine0282 zfine0283 zfine0284 zfine0285 zfine0286 zfine0287 zfine0288 zfine0289 zfine0290 zfine0291 zfine0292 zfine0293 zfine0294 zfine0295 zfine0296 zfine0297 zfine0298 zfine0299 zfine0300 zfine0301 zfine0302 zfine0303 zfine0304 zfine0305 zfine0306 zfine0307 zfine0308 zfine0309 zfine0310 zfine0311 zfine0312 zfine0313 zfine0314 zfine0315 zfine0316 zfine0317 zfine0318 zfine0319 zfine0320 zfine0321 zfine0322 zfine0323 zfine0324 zfine0325 zfine0326 zfine0327 zfine0328 zfine0329 zfine0330 zfine0331 zfine0332 zfine0333 zfine0334 zfine0335 zfine0336 zfine0337 zfine0338 zfine0339 zfine0340 zfine0341 zfine0342 zfine0343 zfine0344 zfine0345 zfine0346 zfine0347 zfine0348 zfine0349 zfine0350 zfine0351 zfine0352 zfine0353 zfine0354 zfine0355 zfine0356 zfine0357 zfine0358 zfine0359 zfine0360 zfine0361 zfine0362 zfine0363 zfine0364 zfine0365 zfine0366 zfine0367 zfine0368 zfine0369 zfine0370 zfine0371 zfine0372 zfine0373 zfine0374 zfine0375 zfine0376 zfine0377 zfine0378 zfine0379 zfine0380 zfine0381 zfine0382 zfine0383 zfine0384 zfine0385 zfine0386 zfine0387 zfine0388 zfine0389 zfine0390 zfine0391 zfine0392 zfine0393 zfine0394 zfine0395 zfine0396 zfine0397 zfine0398 zfine0399 zfine0400 zfine0401 zfine0402 zfine0403 zfine0404 zfine0405 zfine0406 zfine0407 zfine0408 zfine0409 zfine0410 zfine0411 zfine0412 zfine0413 zfine0414 zfine0415 zfine0416 zfine0417 zfine0418 zfine0419 zfine0420 zfine0421 zfine0422 zfine0423 zfine0424 zfine0425 zfine0426 zfine0427 zfine0428 zfine0429 zfine0430 zfine0431 zfine0432 zfine0433 zfine0434 zfine0435 zfine0436 zfine0437 zfine0438 zfine0439 zfine0440 zfine0441 zfine0442 zfine0443 zfine0444 zfine0445 zfine0446 zfine0447 zfine0448 zfine0449 zfine0450 zfine0451 zfine0452 zfine0453 zfine0454 zfine0455 zfine0456 zfine0457 zfine0458 zfine0459 zfine0460 zfine0461 zfine0462 zfine0463 zfine0464 zfine0465 zfine0466 zfine0467 zfine0468 zfine0469 zfine0470 zfine0471 zfine0472 zfine0473 zfine0474 zfine0475 zfine0476 zfine0477 zfine0478 zfine0479 zfine0480 zfine0481 zfine0482 zfine0483 zfine0484 zfine0485 zfine0486 zfine0487 zfine0488 zfine0489 zfine0490 zfine0491 zfine0492 zfine0493 zfine0494 zfine0495 zfine0496 zfine0497 zfine0498 zfine0499 zfine0500 zfine0501 zfine0502 zfine0503 zfine0504 zfine0505 zfine0506 zfine0507 zfine0508 zfine0509 zfine0510 zfine0511 zfine0512 zfine0513 zfine0514 zfine0515 zfine0516 zfine0517 zfine0518 zfine0519 zfine0520 zfine0521 zfine0522 zfine0523 zfine0524 zfine0525 zfine0526 zfine0527 zfine0528 zfine0529 zfine0530 zfine0531 zfine0532 zfine0533 zfine0534 zfine0535 zfine0536 zfine0537 zfine0538 zfine0539 zfine0540 zfine0541 zfine0542 zfine0543 zfine0544 zfine0545 zfine0546 zfine0547 zfine0548 zfine0549 zfine0550 zfine0551 zfine0552 zfine0553 zfine0554 zfine0555 zfine0556 zfine0557 zfine0558 zfine0559 zfine0560 zfine0561 zfine0562 zfine0563 zfine0564 zfine0565 zfine0566 zfine0567 zfine0568 zfine0569 zfine0570 zfine0571 zfine0572 zfine0573 zfine0574 zfine0575 zfine0576 zfine0577 zfine0578 zfine0579 zfine0580 zfine0581 zfine0582 zfine0583 zfine0584 zfine0585 zfine0586 zfine0587 zfine0588 zfine0589 zfine0590 zfine0591 zfine0592 zfine0593 zfine0594 zfine0595 zfine0596 zfine0597 zfine0598 zfine0599 zfine0600 zfine0601 zfine0602 zfine0603 zfine0604 zfine0605 zfine0606 zfine0607 zfine0608 zfine0609 zfine0610 zfine0611 zfine0612 zfine0613 zfine0614 zfine0615 zfine0616 zfine0617 zfine0618 zfine0619 zfine0620 zfine0621 zfine0622 zfine0623 zfine0624 zfine0625 zfine0626 zfine0627 zfine0628 zfine0629 zfine0630 zfine0631 zfine0632 zfine0633 zfine0634 zfine0635 zfine0636 zfine0637 zfine0638 zfine0639 zfine0640 zfine0641 zfine0642 zfine0643 zfine0644 zfine0645 zfine0646 zfine0647 zfine0648 zfine0649 zfine0650 zfine0651 zfine0652 zfine0653 zfine0654 zfine0655 zfine0656 zfine0657 zfine0658 zfine0659 zfine0660 zfine0661 zfine0662 zfine0663 zfine0664 zfine0665 zfine0666 zfine0667 zfine0668 zfine0669 zfine0670 zfine0671 zfine0672 zfine0673 zfine0674 zfine0675 zfine0676 zfine0677 zfine0678 zfine0679 zfine0680 zfine0681 zfine0682 zfine0683 zfine0684 zfine0685 zfine0686 zfine0687 zfine0688 zfine0689 zfine0690 zfine0691 zfine0692 zfine0693 zfine0694 zfine0695 zfine0696 zfine0697 zfine0698 zfine0699 zfine0700 zfine0701 zfine0702 zfine0703 zfine0704 zfine0705 zfine0706 zfine0707 zfine0708 zfine0709 zfine0710 zfine0711 zfine0712 zfine0713 zfine0714 zfine0715 zfine0716 zfine0717 zfine0718 zfine0719 zfine0720 zfine0721 zfine0722 zfine0723 zfine0724 zfine0725 zfine0726 zfine0727 zfine0728 zfine0729 zfine0730 zfine0731 zfine0732 zfine0733 zfine0734 zfine0735 zfine0736 zfine0737 zfine0738 zfine0739 zfine0740 zfine0741 zfine0742 zfine0743 zfine0744 zfine0745 zfine0746 zfine0747 zfine0748 zfine0749 zfine0750 zfine0751 zfine0752 zfine0753 zfine0754 zfine0755 zfine0756 zfine0757 zfine0758 zfine0759 zfine0760 zfine0761 zfine0762 zfine0763 zfine0764 zfine0765 zfine0766 zfine0767 zfine0768 zfine0769 zfine0770 zfine0771 zfine0772 zfine0773 zfine0774 zfine0775 zfine0776 zfine0777 zfine0778 zfine0779 zfine0780 zfine0781 zfine0782 zfine0783 zfine0784 zfine0785 zfine0786";
pub const MEDIUM_ADVERBS: &'static str = "award0001 award0002 award0003 award0004 award0005 award0006 award0007 award0008 award0009 award0010 award0011 award0012 award0013 award0014 award0015 award0016 award0017 award0018 award0019 award0020 award0021 award0022 award0023 award0024 award0025 award0026 award0027 award0028 award0029 award0030 award0031 award0032 award0033 award0034 award0035 award0036 award0037 award0038 award0039 award0040 award0041 award0042 award0043 award0044 award0045 award0046 award0047 award0048 award0049 award0050 award0051 award0052 award0053 award0054 award0055 award0056 award0057 award0058 award0059 award0060 award0061 award0062 award0063 award0064 award0065 award0066 award0067 award0068 award0069 award0070 award0071 award0072 award0073 award0074 award0075 award0076 award0077 award0078 award0079 award0080 award0081 award0082 award0083 award0084 award0085 award0086 award0087 award0088 award0089 award0090 award0091 award0092 award0093 award0094 award0095 award0096 award0097 award0098 award0099 award0100 award0101 award0102 award0103 award0104 award0105 award0106 award0107 award0108 award0109 award0110 award0111 award0112 award0113 award0114 award0115 award0116 award0117 award0118 award0119 award0120 award0121 award0122 award0123 award0124 award0125 award0126 award0127 award0128 award0129 award0130 award0131 award0132 award0133 award0134 award0135 award0136 award0137 award0138 award0139 award0140 bward0001 dward0001 dward0002 dward0003 dward0004 dward0005 dward0006 dward0007 dward0008 dward0009 dward0010 dward0011 dward0012 dward0013 dward0014 dward0015 dward0016 dward0017 zward0001 zward0002 zward0003 zward0004 zward0005 zward0006 zward0007 zward0008 zward0009 zward0010 zward0011 zward0012 zward0013 zward0014 zward0015 zward0016 zward0017 zward0018 zward0019 zward0020 zward0021 zward0022 zward0023 zward0024 zward0025 zward0026 zward0027 zward0028 zward0029 zward0030 zward0031 zward0032 zward0033 zward0034 zward0035 zward0036 zward0037 zward0038 zward0039 zward0040 zward0041 zward0042 zward0043 zward0044 zward0045 zward0046 zward0047 zward0048 zward0049 zward0050 zward0051 zward0052 zward0053 zward0054 zward0055 zward0056 zward0057 zward0058 zward0059 zward0060 zward0061 zward0062 zward0063 zward0064 zward0065 zward0066 zward0067 zward0068 zward0069 zward0070 zward0071 zward0072 zward0073 zward0074 zward0075 zward0076 zward0077 zward0078 zward0079 zward0080 zward0081 zward0082 zward0083 zward0084 zward0085 zward0086 zward0087 zward0088 zward0089 zward0090 zward0091 zward0092 zward0093 zward0094 zward0095 zward0096 zward0097 zward0098 zward0099 zward0100 zward0101 zward0102 zward0103 zward0104 zward0105 zward0106 zward0107 zward0108 zward0109 zward0110 zward0111 zward0112 zward0113 zward0114 zward0115 zward0116 zward0117 zward0118 zward0119 zward0120 zward0121 zward0122 zward0123 zward0124 zward0125 zward0126 zward0127 zward0128 zward0129 zward0130 zward0131 zward0132 zward0133 zward0134 zward0135 zward0136 zward0137 zward0138 zward0139 zward0140 zward0141 zward0142 zward0143 zward0144 zward0145 zward0146 zward0147 zward0148 zward0149 zward0150 zward0151 zward0152 zward0153 zward0154 zward0155 zward0156 zward0157 zward0158 zward0159 zward0160 zward0161 zward0162 zward0163 zward0164 zward0165 zward0166 zward0167 zward0168 zward0169 zward0170 zward0171 zward0172 zward0173 zward0174 zward0175 zward0176 zward0177 zward0178 zward0179 zward0180 zward0181 zward0182 zward0183 zward0184 zward0185 zward0186 zward0187 zward0188 zward0189 zward0190 zward0191 zward0192 zward0193 zward0194 zward0195 zward0196 zward0197 zward0198 zward0199 zward0200 zward0201 zward0202 zward0203 zward0204 zward0205 zward0206 zward0207 zward0208 zward0209 zward0210 zward0211 zward0212 zward0213 zward0214 zward0215 zward0216 zward0217 zward0218 zward0219 zward0220 zward0221 zward0222 zward0223 zward0224 zward0225 zward0226 zward0227 zward0228 zward0229 zward0230 zward0231 zward0232 zward0233 zward0234 zward0235 zward0236 zward0237 zward0238 zward0239 zward0240 zward0241 zward0242 zward0243 zward0244 zward0245 zward0246 zward0247 zward0248 zward0249 zward0250 zward0251 zward0252 zward0253 zward0254 zward0255 zward0256 zward0257 zward0258 zward0259 zward0260 zward0261 zward0262 zward0263 zward0264 zward0265 zward0266 zward0267 zward0268 zward0269 zward0270 zward0271 zward0272 zward0273 zward0274 zward0275 zward0276 zward0277 zward0278 zward0279 zward0280 zward0281 zward0282 zward0283 zward0284 zward0285 zward0286 zward0287 zward0288 zward0289 zward0290 zward0291 zward0292 zward0293 zward0294 zward0295 zward0296 zward0297 zward0298 zward0299 zward0300 zward0301 zward0302 zward0303 zward0304 zward0305 zward0306 zward0307 zward0308 zward0309 zward0310 zward0311 zward0312 zward0313 zward0314 zward0315 zward0316 zward0317 zward0318 zward0319 zward0320 zward0321 zward0322 zward0323 zward0324 zward0325 zward0326 zward0327 zward0328 zward0329 zward0330 zward0331 zward0332 zward0333 zward0334 zward0335 zward0336 zward0337 zward0338 zward0339 zward0340 zward0341 zward0342 zward0343 zward0344 zward0345 zward0346 zward0347 zward0348 zward0349 zward0350 zward0351 zward0352 zward0353 zward0354 zward0355 zward0356 zward0357 zward0358 zward0359 zward0360 zward0361 zward0362 zward0363 zward0364 zward0365 zward0366 zward0367 zward0368 zward0369 zward0370 zward0371 zward0372 zward0373 zward0374 zward0375 zward0376 zward0377 zward0378 zward0379 zward0380 zward0381 zward0382 zward0383 zward0384 zward0385 zward0386 zward0387 zward0388 zward0389 zward0390 zward0391 zward0392 zward0393 zward0394 zward0395 zward0396 zward0397 zward0398 zward0399 zward0400 zward0401 zward0402 zward0403 zward0404 zward0405 zward0406 zward0407 zward0408 zward0409 zward0410 zward0411 zward0412 zward0413 zward0414 zward0415 zward0416 zward0417 zward0418 zward0419 zward0420 zward0421 zward0422 zward0423 zward0424 zward0425 zward0426 zward0427 zward0428 zward0429 zward0430 zward0431 zward0432 zward0433 zward0434 zward0435 zward0436 zward0437 zward0438 zward0439 zward0440 zward0441 zward0442 zward0443 zward0444 zward0445 zward0446 zward0447 zward0448 zward0449 zward0450 zward0451 zward0452 zward0453 zward0454 zward0455 zward0456 zward0457 zward0458 zward0459 zward0460 zward0461 zward0462 zward0463 zward0464 zward0465 zward0466 zward0467 zward0468 zward0469 zward0470 zward0471 zward0472 zward0473 zward0474 zward0475 zward0476 zward0477 zward0478 zward0479 zward0480 zward0481 zward0482 zward0483 zward0484 zward0485 zward0486 zward0487 zward0488 zward0489 zward0490 zward0491 zward0492 zward0493 zward0494 zward0495 zward0496 zward0497 zward0498 zward0499 zward0500 zward0501 zward0502 zward0503 zward0504 zward0505 zward0506 zward0507 zward0508 zward0509 zward0510 zward0511 zward0512 zward0513 zward0514 zward0515 zward0516 zward0517 zward0518 zward0519 zward0520 zward0521 zward0522 zward0523 zward0524 zward0525 zward0526 zward0527 zward0528 zward0529 zward0530 zward0531 zward0532 zward0533 zward0534 zward0535 zward0536 zward0537 zward0538 zward0539 zward0540 zward0541 zward0542 zward0543 zward0544 zward0545 zward0546 zward0547 zward0548 zward0549 zward0550 zward0551 zward0552 zward0553 zward0554 zward0555 zward0556 zward0557 zward0558 zward0559 zward0560 zward0561 zward0562 zward0563 zward0564 zward0565 zward0566 zward0567 zward0568 zward0569 zward0570 zward0571 zward0572 zward0573 zward0574 zward0575 zward0576 zward0577 zward0578 zward0579 zward0580 zward0581 zward0582 zward0583 zward0584 zward0585 zward0586 zward0587 zward0588 zward0589 zward0590 zward0591 zward0592 zward0593 zward0594 zward0595 zward0596 zward0597 zward0598 zward0599 zward0600 zward0601 zward0602 zward0603 zward0604 zward0605 zward0606 zward0607 zward0608 zward0609 zward0610 zward0611 zward0612 zward0613 zward0614 zward0615 zward0616 zward0617 zward0618 zward0619 zward0620 zward0621 zward0622 zward0623 zward0624 zward0625 zward0626 zward0627 zward0628 zward0629 zward0630 zward0631 zward0632 zward0633 zward0634 zward0635 zward0636 zward0637 zward0638 zward0639 zward0640 zward0641 zward0642 zward0643 zward0644 zward0645 zward0646 zward0647 zward0648 zward0649 zward0650 zward0651 zward0652 zward0653 zward0654 zward0655 zward0656 zward0657 zward0658 zward0659 zward0660 zward0661 zward0662 zward0663 zward0664 zward0665 zward0666 zward0667 zward0668 zward0669 zward0670 zward0671 zward0672 zward0673 zward0674 zward0675 zward0676 zward0677 zward0678 zward0679 zward0680 zward0681 zward0682 zward0683 zward0684 zward0685 zward0686 zward0687 zward0688 zward0689 zward0690 zward0691 zward0692 zward0693 zward0694 zward0695 zward0696 zward0697 zward0698 zward0699 zward0700 zward0701 zward0702 zward0703 zward0704 zward0705 zward0706 zward0707 zward0708 zward0709 zward0710 zward0711 zward0712 zward0713 zward0714 zward0715 zward0716 zward0717 zward0718 zward0719 zward0720 zward0721 zward0722 zward0723 zward0724 zward0725 zward0726 zward0727 zward0728 zward0729 zward0730 zward0731 zward0732 zward0733 zward0734 zward0735 zward0736 zward0737 zward0738 zward0739 zward0740 zward0741 zward0742 zward0743 zward0744 zward0745 zward0746 zward0747 zward0748 zward0749 zward0750 zward0751 zward0752 zward0753 zward0754 zward0755 zward0756 zward0757 zward0758 zward0759 zward0760 zward0761 zward0762 zward0763 zward0764 zward0765 zward0766 zward0767 zward0768 zward0769 zward0770 zward0771 zward0772 zward0773 zward0774 zward0775 zward0776 zward0777 zward0778 zward0779 zward0780 zward0781 zward0782 zward0783 zward0784 zward0785 zward0786 zward0787 zward0788 zward0789 zward0790 zward0791 zward0792 zward0793 zward0794 zward0795 zward0796 zward0797 zward0798 zward0799 zward0800 zward0801 zward0802 zward0803 zward0804 zward0805 zward0806 zward0807 zward0808 zward0809 zward0810 zward0811 zward0812 zward0813 zward0814 zward0815 zward0816 zward0817 zward0818 zward0819 zward0820 zward0821 zward0822 zward0823 zward0824 zward0825 zward0826 zward0827 zward0828 zward0829 zward0830 zward0831 zward0832 zward0833 zward0834 zward0835 zward0836 zward0837 zward0838 zward0839 zward0840 zward0841 zward0842 zward0843 zward0844 zward0845 zward0846 zward0847 zward0848 zward0849 zward0850 zward0851 zward0852 zward0853 zward0854 zward0855 zward0856 zward0857 zward0858 zward0859 zward0860 zward0861 zward0862 zward0863 zward0864 zward0865 zward0866 zward0867 zward0868 zward0869 zward0870 zward0871 zward0872 zward0873 zward0874 zward0875 zward0876 zward0877 zward0878 zward0879 zward0880 zward0881 zward0882 zward0883 zward0884 zward0885 zward0886 zward0887 zward0888 zward0889 zward0890 zward0891 zward0892 zward0893 zward0894 zward0895 zward0896 zward0897 zward0898 zward0899 zward0900 zward0901 zward0902 zward0903 zward0904 zward0905 zward0906 zward0907 zward0908 zward0909 zward0910 zward0911 zward0912 zward0913 zward0914 zward0915 zward0916 zward0917 zward0918 zward0919 zward0920 zward0921 zward0922 zward0923 zward0924 zward0925 zward0926 zward0927 zward0928 zward0929 zward0930 zward0931 zward0932 zward0933 zward0934 zward0935 zward0936 zward0937 zward0938 zward0939 zward0940 zward0941 zward0942 zward0943 zward0944 zward0945 zward0946 zward0947 zward0948 zward0949 zward0950 zward0951 zward0952 zward0953 zward0954 zward0955 zward0956 zward0957 zward0958 zward0959 zward0960 zward0961 zward0962 zward0963 zward0964 zward0965 zward0966 zward0967 zward0968 zward0969 zward0970 zward0971 zward0972 zward0973 zward0974 zward0975 zward0976 zward0977 zward0978 zward0979 zward0980 zward0981 zward0982 zward0983 zward0984 zward0985 zward0986 zward0987 zward0988 zward0989 zward0990 zward0991 zward0992 zward0993 zward0994 zward0995 zward0996 zward0997 zward0998 zward0999 zward1000 zward1001 zward1002 zward1003 zward1004 zward1005 zward1006 zward1007 zward1008 zward1009 zward1010 zward1011 zward1012 zward1013 zward1014 zward1015 zward1016 zward1017 zward1018 zward1019 zward1020 zward1021 zward1022 zward1023 zward1024 zward1025 zward1026 zward1027 zward1028 zward1029 zward1030 zward1031 zward1032 zward1033 zward1034 zward1035 zward1036 zward1037 zward1038 zward1039 zward1040 zward1041 zward1042 zward1043 zward1044 zward1045 zward1046 zward1047 zward1048 zward1049 zward1050 zward1051 zward1052 zward1053 zward1054 zward1055 zward1056 zward1057 zward1058 zward1059 zward1060 zward1061 zward1062 zward1063 zward1064 zward1065 zward1066 zward1067 zward1068 zward1069 zward1070 zward1071 zward1072 zward1073 zward1074 zward1075 zward1076 zward1077 zward1078 zward1079 zward1080 zward1081 zward1082 zward1083 zward1084 zward1085 zward1086 zward1087 zward1088 zward1089 zward1090 zward1091 zward1092 zward1093 zward1094 zward1095 zward1096 zward1097 zward1098 zward1099 zward1100 zward1101 zward1102 zward1103 zward1104 zward1105 zward1106 zward1107 zward1108 zward1109 zward1110 zward1111 zward1112 zward1113 zward1114 zward1115 zward1116 zward1117 zward1118 zward1119 zward1120 zward1121 zward1122 zward1123 zward1124 zward1125 zward1126 zward1127 zward1128 zward1129 zward1130 zward1131 zward1132 zward1133 zward1134 zward1135 zward1136 zward1137 zward1138 zward1139 zward1140 zward1141 zward1142 zward1143 zward1144 zward1145 zward1146 zward1147 zward1148 zward1149 zward1150 zward1151 zward1152 zward1153 zward1154 zward1155 zward1156 zward1157 zward1158 zward1159 zward1160 zward1161 zward1162 zward1163 zward1164 zward1165 zward1166 zward1167 zward1168 zward1169 zward1170 zward1171 zward1172 zward1173 zward1174 zward1175 zward1176 zward1177 zward1178 zward1179 zward1180 zward1181 zward1182 zward1183 zward1184 zward1185 zward1186 zward1187 zward1188 zward1189 zward1190 zward1191 zward1192 zward1193 zward1194 zward1195 zward1196 zward1197 zward1198 zward1199 zward1200 zward1201 zward1202 zward1203 zward1204 zward1205 zward1206 zward1207 zward1208 zward1209 zward1210 zward1211 zward1212 zward1213 zward1214 zward1215 zward1216 zward1217 zward1218 zward1219 zward1220 zward1221 zward1222 zward1223 zward1224 zward1225 zward1226 zward1227 zward1228 zward1229 zward1230 zward1231 zward1232 zward1233 zward1234 zward1235 zward1236 zward1237 zward1238 zward1239 zward1240 zward1241 zward1242 zward1243 zward1244 zward1245 zward1246 zward1247 zward1248 zward1249 zward1250 zward1251 zward1252 zward1253 zward1254 zward1255 zward1256 zward1257 zward1258 zward1259 zward1260 zward1261 zward1262 zward1263 zward1264 zward1265 zward1266 zward1267 zward1268 zward1269 zward1270 zward1271 zward1272 zward1273 zward1274 zward1275 zward1276 zward1277 zward1278 zward1279 zward1280 zward1281 zward1282 zward1283 zward1284 zward1285 zward1286 zward1287 zward1288 zward1289 zward1290 zward1291 zward1292 zward1293 zward1294 zward1295 zward1296 zward1297 zward1298 zward1299 zward1300 zward1301 zward1302 zward1303 zward1304 zward1305 zward1306 zward1307 zward1308 zward1309 zward1310 zward1311 zward1312 zward1313 zward1314 zward1315 zward1316 zward1317 zward1318 zward1319 zward1320 zward1321 zward1322 zward1323 zward1324 zward1325 zward1326 zward1327 zward1328 zward1329 zward1330 zward1331 zward1332 zward1333 zward1334 zward1335 zward1336 zward1337 zward1338 zward1339 zward1340 zward1341 zward1342 zward1343 zward1344 zward1345 zward1346 zward1347 zward1348 zward1349 zward1350 zward1351 zward1352 zward1353 zward1354 zward1355 zward1356 zward1357 zward1358 zward1359 zward1360 zward1361 zward1362 zward1363 zward1364 zward1365 zward1366 zward1367 zward1368 zward1369 zward1370 zward1371 zward1372 zward1373 zward1374 zward1375 zward1376 zward1377 zward1378 zward1379 zward1380 zward1381 zward1382 zward1383 zward1384 zward1385 zward1386 zward1387 zward1388 zward1389 zward1390 zward1391 zward1392 zward1393 zward1394 zward1395 zward1396 zward1397 zward1398 zward1399 zward1400 zward1401 zward1402 zward1403 zward1404 zward1405 zward1406 zward1407 zward1408 zward1409 zward1410 zward1411 zward1412 zward1413 zward1414 zward1415 zward1416 zward1417 zward1418 zward1419 zward1420 zward1421 zward1422 zward1423 zward1424 zward1425 zward1426 zward1427 zward1428 zward1429 zward1430 zward1431 zward1432 zward1433 zward1434 zward1435 zward1436 zward1437 zward1438 zward1439 zward1440 zward1441 zward1442 zward1443 zward1444 zward1445 zward1446 zward1447 zward1448 zward1449 zward1450 zward1451 zward1452 zward1453 zward1454 zward1455 zward1456 zward1457 zward1458 zward1459 zward1460 zward1461 zward1462 zward1463 zward1464 zward1465 zward1466 zward1467 zward1468 zward1469 zward1470 zward1471 zward1472";
pub const MEDIUM_NOUNS: &'static str = "akind0001 akind0002 akind0003 akind0004 akind0005 akind0006 akind0007 akind0008 akind0009 akind0010 akind0011 akind0012 akind0013 akind0014 akind0015 akind0016 akind0017 akind0018 akind0019 akind0020 akind0021 akind0022 akind0023 akind0024 akind0025 akind0026 akind0027 akind0028 akind0029 akind0030 akind0031 akind0032 akind0033 akind0034 akind0035 akind0036 akind0037 akind0038 akind0039 akind0040 akind0041 akind0042 akind0043 akind0044 akind0045 akind0046 akind0047 akind0048 akind0049 akind0050 akind0051 akind0052 akind0053 akind0054 akind0055 akind0056 akind0057 akind0058 akind0059 akind0060 akind0061 akind0062 akind0063 akind0064 akind0065 akind0066 akind0067 akind0068 akind0069 akind0070 akind0071 akind0072 akind0073 akind0074 akind0075 akind0076 akind0077 akind0078 akind0079 akind0080 akind0081 akind0082 akind0083 akind0084 akind0085 akind0086 akind0087 akind0088 akind0089 akind0090 akind0091 akind0092 akind0093 akind0094 akind0095 akind0096 akind0097 akind0098 akind0099 akind0100 akind0101 akind0102 akind0103 akind0104 akind0105 akind0106 akind0107 akind0108 akind0109 akind0110 akind0111 akind0112 akind0113 akind0114 akind0115 akind0116 akind0117 akind0118 akind0119 akind0120 akind0121 akind0122 akind0123 akind0124 akind0125 akind0126 akind0127 akind0128 akind0129 akind0130 akind0131 akind0132 akind0133 akind0134 akind0135 akind0136 akind0137 akind0138 akind0139 akind0140 akind0141 akind0142 akind0143 akind0144 akind0145 akind0146 akind0147 akind0148 akind0149 akind0150 akind0151 akind0152 akind0153 akind0154 akind0155 akind0156 akind0157 akind0158 akind0159 akind0160 akind0161 akind0162 akind0163 akind0164 akind0165 akind0166 akind0167 akind0168 akind0169 akind0170 akind0171 akind0172 akind0173 akind0174 akind0175 akind0176 akind0177 akind0178 akind0179 akind0180 akind0181 akind0182 akind0183 akind0184 akind0185 akind0186 akind0187 akind0188 akind0189 akind0190 akind0191 akind0192 akind0193 akind0194 akind0195 akind0196 akind0197 akind0198 akind0199 akind0200 akind0201 akind0202 akind0203 akind0204 akind0205 akind0206 akind0207 akind0208 akind0209 akind0210 akind0211 akind0212 akind0213 akind0214 akind0215 akind0216 akind0217 akind0218 akind0219 akind0220 akind0221 akind0222 akind0223 akind0224 akind0225 akind0226 akind0227 akind0228 akind0229 akind0230 akind0231 akind0232 akind0233 akind0234 akind0235 akind0236 akind0237 akind0238 akind0239 akind0240 akind0241 akind0242 akind0243 akind0244 akind0245 akind0246 akind0247 akind0248 akind0249 akind0250 akind0251 akind0252 akind0253 akind0254 akind0255 akind0256 akind0257 akind0258 akind0259 akind0260 akind0261 akind0262 akind0263 akind0264 akind0265 akind0266 akind0267 akind0268 akind0269 akind0270 akind0271 akind0272 akind0273 akind0274 akind0275 akind0276 akind0277 akind0278 akind0279 akind0280 akind0281 akind0282 akind0283 akind0284 akind0285 akind0286 akind0287 akind0288 akind0289 akind0290 akind0291 akind0292 akind0293 akind0294 akind0295 akind0296 akind0297 akind0298 akind0299 akind0300 akind0301 akind0302 akind0303 akind0304 akind0305 akind0306 akind0307 akind0308 akind0309 akind0310 akind0311 akind0312 akind0313 akind0314 akind0315 akind0316 akind0317 akind0318 akind0319 akind0320 akind0321 akind0322 akind0323 akind0324 akind0325 akind0326 bkind0001 bkind0002 bkind0003 bkind0004 bkind0005 bkind0006 bkind0007 bkind0008 bkind0009 bkind0010 bkind0011 bkind0012 bkind0013 bkind0014 bkind0015 bkind0016 bkind0017 bkind0018 bkind0019 bkind0020 bkind0021 bkind0022 bkind0023 bkind0024 bkind0025 bkind0026 bkind0027 bkind0028 bkind0029 bkind0030 bkind0031 bkind0032 bkind0033 bkind0034 bkind0035 bkind0036 bkind0037 bkind0038 bkind0039 bkind0040 bkind0041 bkind0042 bkind0043 bkind0044 bkind0045 bkind0046 bkind0047 bkind0048 bkind0049 bkind0050 bkind0051 bkind0052 bkind0053 bkind0054 bkind0055 bkind0056 bkind0057 bkind0058 bkind0059 bkind0060 bkind0061 bkind0062 bkind0063 bkind0064 bkind0065 bkind0066 bkind0067 bkind0068 bkind0069 bkind0070 bkind0071 bkind0072 bkind0073 bkind0074 bkind0075 bkind0076 bkind0077 bkind0078 bkind0079 bkind0080 bkind0081 bkind0082 bkind0083 bkind0084 bkind0085 bkind0086 bkind0087 bkind0088 bkind0089 bkind0090 bkind0091 bkind0092 bkind0093 bkind0094 bkind0095 bkind0096 bkind0097 bkind0098 bkind0099 bkind0100 bkind0101 bkind0102 bkind0103 bkind0104 bkind0105 bkind0106 bkind0107 bkind0108 bkind0109 bkind0110 bkind0111 bkind0112 bkind0113 bkind0114 bkind0115 bkind0116 bkind0117 bkind0118 bkind0119 bkind0120 bkind0121 bkind0122 bkind0123 bkind0124 bkind0125 bkind0126 bkind0127 bkind0128 bkind0129 bkind0130 bkind0131 bkind0132 bkind0133 bkind0134 bkind0135 bkind0136 bkind0137 bkind0138 bkind0139 bkind0140 bkind0141 bkind0142 bkind0143 bkind0144 bkind0145 bkind0146 bkind0147 bkind0148 bkind0149 bkind0150 bkind0151 bkind0152 bkind0153 bkind0154 bkind0155 bkind0156 bkind0157 bkind0158 bkind0159 bkind0160 bkind0161 bkind0162 bkind0163 bkind0164 bkind0165 bkind0166 bkind0167 bkind0168 bkind0169 bkind0170 bkind0171 bkind0172 bkind0173 bkind0174 bkind0175 bkind0176 bkind0177 bkind0178 bkind0179 bkind0180 bkind0181 bkind0182 bkind0183 bkind0184 bkind0185 bkind0186 bkind0187 bkind0188 bkind0189 bkind0190 bkind0191 bkind0192 bkind0193 bkind0194 bkind0195 bkind0196 bkind0197 bkind0198 bkind0199 bkind0200 bkind0201 bkind0202 bkind0203 bkind0204 bkind0205 bkind0206 bkind0207 bkind0208 bkind0209 bkind0210 bkind0211 bkind0212 bkind0213 bkind0214 bkind0215 bkind0216 bkind0217 bkind0218 bkind0219 bkind0220 bkind0221 bkind0222 bkind0223 bkind0224 bkind0225 bkind0226 bkind0227 bkind0228 bkind0229 bkind0230 bkind0231 bkind0232 bkind0233 bkind0234 bkind0235 bkind0236 bkind0237 bkind0238 bkind0239 bkind0240 bkind0241 bkind0242 bkind0243 bkind0244 bkind0245 bkind0246 bkind0247 bkind0248 bkind0249 bkind0250 bkind0251 bkind0252 bkind0253 bkind0254 bkind0255 bkind0256 bkind0257 bkind0258 bkind0259 bkind0260 bkind0261 bkind0262 bkind0263 bkind0264 bkind0265 bkind0266 bkind0267 bkind0268 bkind0269 bkind0270 bkind0271 bkind0272 bkind0273 bkind0274 bkind0275 bkind0276 bkind0277 bkind0278 bkind0279 bkind0280 bkind0281 bkind0282 bkind0283 bkind0284 bkind0285 bkind0286 bkind0287 bkind0288 bkind0289 bkind0290 bkind0291 bkind0292 bkind0293 bkind0294 bkind0295 bkind0296 bkind0297 bkind0298 bkind0299 bkind0300 bkind0301 bkind0302 bkind0303 bkind0304 bkind0305 bkind0306 bkind0307 bkind0308 bkind0309 bkind0310 bkind0311 bkind0312 bkind0313 bkind0314 bkind0315 bkind0316 bkind0317 bkind0318 bkind0319 bkind0320 bkind0321 bkind0322 bkind0323 bkind0324 bkind0325 bkind0326 bkind0327 bkind0328 bkind0329 bkind0330 bkind0331 bkind0332 bkind0333 bkind0334 bkind0335 bkind0336 bkind0337 bkind0338 bkind0339 bkind0340 bkind0341 bkind0342 bkind0343 bkind0344 bkind0345 bkind0346 bkind0347 bkind0348 bkind0349 bkind0350 bkind0351 bkind0352 bkind0353 bkind0354 bkind0355 bkind0356 bkind0357 bkind0358 bkind0359 bkind0360 bkind0361 bkind0362 bkind0363 bkind0364 bkind0365 bkind0366 bkind0367 bkind0368 bkind0369 bkind0370 bkind0371 bkind0372 bkind0373 bkind0374 bkind0375 bkind0376 bkind0377 bkind0378 bkind0379 bkind0380 bkind0381 bkind0382 bkind0383 bkind0384 bkind0385 bkind0386 bkind0387 bkind0388 bkind0389 bkind0390 bkind0391 bkind0392 bkind0393 bkind0394 bkind0395 bkind0396 bkind0397 bkind0398 bkind0399 bkind0400 bkind0401 bkind0402 bkind0403 bkind0404 bkind0405 bkind0406 bkind0407 bkind0408 bkind0409 bkind0410 bkind0411 bkind0412 bkind0413 bkind0414 bkind0415 bkind0416 bkind0417 bkind0418 bkind0419 bkind0420 bkind0421 ckind0001 ckind0002 ckind0003 ckind0004 ckind0005 ckind0006 ckind0007 ckind0008 ckind0009 ckind0010 ckind0011 ckind0012 ckind0013 dkind0001 dkind0002 dkind0003 dkind0004 dkind0005 dkind0006 dkind0007 dkind0008 dkind0009 dkind0010 dkind0011 dkind0012 dkind0013 dkind0014 dkind0015 dkind0016 dkind0017 dkind0018 dkind0019 dkind0020 dkind0021 dkind0022 dkind0023 dkind0024 dkind0025 dkind0026 dkind0027 dkind0028 dkind0029 dkind0030 dkind0031 dkind0032 dkind0033 dkind0034 dkind0035 dkind0036 dkind0037 ekind0001 ekind0002 ekind0003 ekind0004 ekind0005 ekind0006 ekind0007 ekind0008 ekind0009 ekind0010 ekind0011 ekind0012 ekind0013 ekind0014 ekind0015 ekind0016 ekind0017 ekind0018 ekind0019 ekind0020 ekind0021 ekind0022 ekind0023 ekind0024 ekind0025 ekind0026 ekind0027 ekind0028 ekind0029 ekind0030 ekind0031 ekind0032 ekind0033 ekind0034 ekind0035 ekind0036 ekind0037 ekind0038 ekind0039 ekind0040 ekind0041 ekind0042 ekind0043 ekind0044 ekind0045 ekind0046 ekind0047 ekind0048 ekind0049 ekind0050 ekind0051 ekind0052 ekind0053 ekind0054 ekind0055 ekind0056 ekind0057 ekind0058 ekind0059 ekind0060 ekind0061 ekind0062 ekind0063 ekind0064 ekind0065 ekind0066 ekind0067 ekind0068 ekind0069 ekind0070 ekind0071 ekind0072 ekind0073 ekind0074 ekind0075 ekind0076 ekind0077 ekind0078 ekind0079 ekind0080 ekind0081 ekind0082 ekind0083 ekind0084 ekind0085 ekind0086 ekind0087 ekind0088 ekind0089 ekind0090 ekind0091 ekind0092 ekind0093 ekind0094 ekind0095 ekind0096 ekind0097 ekind0098 ekind0099 ekind0100 ekind0101 ekind0102 ekind0103 ekind0104 ekind0105 ekind0106 ekind0107 ekind0108 ekind0109 ekind0110 ekind0111 ekind0112 ekind0113 ekind0114 ekind0115 ekind0116 ekind0117 ekind0118 ekind0119 ekind0120 ekind0121 ekind0122 ekind0123 ekind0124 ekind0125 ekind0126 ekind0127 ekind0128 ekind0129 ekind0130 ekind0131 ekind0132 ekind0133 ekind0134 ekind0135 ekind0136 ekind0137 ekind0138 ekind0139 ekind0140 ekind0141 ekind0142 ekind0143 ekind0144 ekind0145 ekind0146 ekind0147 ekind0148 ekind0149 ekind0150 ekind0151 ekind0152 ekind0153 ekind0154 ekind0155 ekind0156 ekind0157 ekind0158 ekind0159 ekind0160 ekind0161 ekind0162 ekind0163 ekind0164 ekind0165 ekind0166 ekind0167 ekind0168 ekind0169 ekind0170 ekind0171 ekind0172 ekind0173 ekind0174 ekind0175 ekind0176 ekind0177 ekind0178 ekind0179 ekind0180 ekind0181 ekind0182 ekind0183 ekind0184 ekind0185 ekind0186 ekind0187 ekind0188 ekind0189 ekind0190 ekind0191 ekind0192 ekind0193 ekind0194 ekind0195 ekind0196 ekind0197 ekind0198 ekind0199 ekind0200 ekind0201 ekind0202 ekind0203 ekind0204 ekind0205 ekind0206 ekind0207 ekind0208 ekind0209 ekind0210 ekind0211 ekind0212 ekind0213 ekind0214 ekind0215 ekind0216 ekind0217 ekind0218 ekind0219 ekind0220 ekind0221 ekind0222 ekind0223 ekind0224 ekind0225 ekind0226 ekind0227 ekind0228 ekind0229 ekind0230 ekind0231 ekind0232 ekind0233 ekind0234 ekind0235 ekind0236 ekind0237 ekind0238 ekind0239 ekind0240 ekind0241 ekind0242 ekind0243 ekind0244 ekind0245 ekind0246 ekind0247 ekind0248 ekind0249 ekind0250 ekind0251 ekind0252 ekind0253 ekind0254 ekind0255 ekind0256 ekind0257 ekind0258 ekind0259";
pub const LARGE_ADJECTIVES: &'static str = "afine0001 afine0002 afine0003 afine0004 afine0005 afine0006 afine0007 afine0008 afine0009 afine0010 afine0011 afine0012 afine0013 afine0014 afine0015 afine0016 afine0017 afine0018 afine0019 afine0020 afine0021 afine0022 afine0023 afine0024 afine0025 afine0026 afine0027 afine0028 afine0029 afine0030 afine0031 afine0032 afine0033 afine0034 afine0035 afine0036 afine0037 afine0038 afine0039 afine0040 afine0041 afine0042 afine0043 afine0044 afine0045 afine0046 afine0047 afine0048 afine0049 afine0050 afine0051 afine0052 afine0053 afine0054 afine0055 afine0056 afine0057 afine0058 afine0059 afine0060 afine0061 afine0062 afine0063 afine0064 afine0065 afine0066 afine0067 afine0068 afine0069 afine0070 afine0071 afine0072 afine0073 afine0074 afine0075 afine0076 afine0077 afine0078 afine0079 afine0080 afine0081 afine0082 afine0083 afine0084 afine0085 afine0086 afine0087 afine0088 afine0089 afine0090 afine0091 afine0092 afine0093 afine0094 afine0095 afine0096 afine0097 afine0098 afine0099 afine0100 afine0101 afine0102 afine0103 afine0104 afine0105 afine0106 afine0107 afine0108 afine0109 afine0110 afine0111 afine0112 afine0113 afine0114 afine0115 afine0116 afine0117 afine0118 afine0119 afine0120 bfine0001 bfine0002 bfine0003 bfine0004 bfine0005 bfine0006 bfine0007 bfine0008 bfine0009 bfine0010 bfine0011 bfine0012 bfine0013 bfine0014 bfine0015 bfine0016 bfine0017 bfine0018 bfine0019 bfine0020 bfine0021 bfine0022 bfine0023 bfine0024 bfine0025 bfine0026 bfine0027 bfine0028 bfine0029 bfine0030 bfine0031 bfine0032 bfine0033 bfine0034 bfine0035 bfine0036 bfine0037 bfine0038 bfine0039 bfine0040 bfine0041 bfine0042 bfine0043 bfine0044 bfine0045 bfine0046 bfine0047 bfine0048 bfine0049 bfine0050 bfine0051 bfine0052 bfine0053 bfine0054 bfine0055 bfine0056 bfine0057 bfine0058 bfine0059 bfine0060 bfine0061 bfine0062 bfine0063 bfine0064 bfine0065 bfine0066 bfine0067 bfine0068 bfine0069 bfine0070 bfine0071 bfine0072 bfine0073 bfine0074 bfine0075 bfine0076 bfine0077 bfine0078 bfine0079 bfine0080 bfine0081 bfine0082 bfine0083 bfine0084 bfine0085 bfine0086 bfine0087 bfine0088 bfine0089 bfine0090 bfine0091 bfine0092 bfine0093 bfine0094 bfine0095 bfine0096 bfine0097 bfine0098 bfine0099 bfine0100 bfine0101 bfine0102 bfine0103 bfine0104 bfine0105 bfine0106 bfine0107 bfine0108 bfine0109 bfine0110 bfine0111 bfine0112 bfine0113 bfine0114 bfine0115 bfine0116 bfine0117 bfine0118 bfine0119 bfine0120 cfine0001 cfine0002 cfine0003 cfine0004 cfine0005 cfine0006 cfine0007 cfine0008 cfine0009 cfine0010 cfine0011 cfine0012 cfine0013 cfine0014 cfine0015 cfine0016 cfine0017 cfine0018 cfine0019 cfine0020 cfine0021 cfine0022 cfine0023 cfine0024 cfine0025 cfine0026 cfine0027 cfine0028 cfine0029 cfine0030 cfine0031 cfine0032 cfine0033 cfine0034 cfine0035 cfine0036 cfine0037 cfine0038 cfine0039 cfine0040 cfine0041 cfine0042 cfine0043 cfine0044 cfine0045 cfine0046 cfine0047 cfine0048 cfine0049 cfine0050 cfine0051 cfine0052 cfine0053 cfine0054 cfine0055 cfine0056 cfine0057 cfine0058 cfine0059 cfine0060 cfine0061 cfine0062 cfine0063 cfine0064 cfine0065 cfine0066 cfine0067 cfine0068 cfine0069 cfine0070 cfine0071 cfine0072 cfine0073 cfine0074 cfine0075 cfine0076 cfine0077 cfine0078 cfine0079 cfine0080 cfine0081 cfine0082 cfine0083 cfine0084 cfine0085 cfine0086 cfine0087 cfine0088 cfine0089 cfine0090 cfine0091 cfine0092 cfine0093 cfine0094 cfine0095 cfine0096 cfine0097 cfine0098 cfine0099 cfine0100 cfine0101 cfine0102 cfine0103 cfine0104 cfine0105 cfine0106 cfine0107 cfine0108 cfine0109 cfine0110 cfine0111 cfine0112 cfine0113 cfine0114 cfine0115 cfine0116 cfine0117 cfine0118 cfine0119 cfine0120 dfine0001 dfine0002 dfine0003 dfine0004 dfine0005 dfine0006 dfine0007 dfine0008 dfine0009 dfine0010 dfine0011 dfine0012 dfine0013 dfine0014 dfine0015 dfine0016 dfine0017 dfine0018 dfine0019 dfine0020 dfine0021 dfine0022 dfine0023 dfine0024 dfine0025 dfine0026 dfine0027 dfine0028 dfine0029 dfine0030 dfine0031 dfine0032 dfine0033 dfine0034 dfine0035 dfine0036 dfine0037 dfine0038 dfine0039 dfine0040 dfine0041 dfine0042 dfine0043 dfine0044 dfine0045 dfine0046 dfine0047 dfine0048 dfine0049 dfine0050 dfine0051 dfine0052 dfine0053 dfine0054 dfine0055 dfine0056 dfine0057 dfine0058 dfine0059 dfine0060 dfine0061 dfine0062 dfine0063 dfine0064 dfine0065 dfine0066 dfine0067 dfine0068 dfine0069 dfine0070 dfine0071 dfine0072 dfine0073 dfine0074 dfine0075 dfine0076 dfine0077 dfine0078 dfine0079 dfine0080 dfine0081 dfine0082 dfine0083 dfine0084 dfine0085 dfine0086 dfine0087 dfine0088 dfine0089 dfine0090 dfine0091 dfine0092 dfine0093 dfine0094 dfine0095 dfine0096 dfine0097 dfine0098 dfine0099 dfine0100 dfine0101 dfine0102 dfine0103 dfine0104 dfine0105 dfine0106 dfine0107 dfine0108 dfine0109 dfine0110 dfine0111 dfine0112 dfine0113 dfine0114 dfine0115 dfine0116 dfine0117 dfine0118 dfine0119 dfine0120 efine0001 efine0002 efine0003 efine0004 efine0005 efine0006 efine0007 efine0008 efine0009 efine0010 efine0011 efine0012 efine0013 efine0014 efine0015 efine0016 efine0017 efine0018 efine0019 efine0020 efine0021 efine0022 efine0023 efine0024 efine0025 efine0026 efine0027 efine0028 efine0029 efine0030 efine0031 efine0032 efine0033 efine0034 efine0035 efine0036 efine0037 efine0038 efine0039 efine0040 efine0041 efine0042 efine0043 efine0044 efine0045 efine0046 efine0047 efine0048 efine0049 efine0050 efine0051 efine0052 efine0053 efine0054 efine0055 efine0056 efine0057 efine0058 efine0059 efine0060 efine0061 efine0062 efine0063 efine0064 efine0065 efine0066 efine0067 efine0068 efine0069 efine0070 efine0071 efine0072 efine0073 efine0074 efine0075 efine0076 efine0077 efine0078 efine0079 efine0080 efine0081 efine0082 efine0083 efine0084 efine0085 efine0086 efine0087 efine0088 efine0089 efine0090 efine0091 efine0092 efine0093 efine0094 efine0095 efine0096 efine0097 efine0098 efine0099 efine0100 efine0101 efine0102 efine0103 efine0104 efine0105 efine0106 efine0107 efine0108 efine0109 efine0110 efine0111 efine0112 efine0113 efine0114 efine0115 efine0116 efine0117 efine0118 efine0119 efine0120 ffine0001 ffine0002 ffine0003 ffine0004 ffine0005 ffine0006 ffine0007 ffine0008 ffine0009 ffine0010 ffine0011 ffine0012 ffine0013 ffine0014 ffine0015 ffine0016 ffine0017 ffine0018 ffine0019 ffine0020 ffine0021 ffine0022 ffine0023 ffine0024 ffine0025 ffine0026 ffine0027 ffine0028 ffine0029 ffine0030 ffine0031 ffine0032 ffine0033 ffine0034 ffine0035 ffine0036 ffine0037 ffine0038 ffine0039 ffine0040 ffine0041 ffine0042 ffine0043 ffine0044 ffine0045 ffine0046 ffine0047 ffine0048 ffine0049 ffine0050 ffine0051 ffine0052 ffine0053 ffine0054 ffine0055 ffine0056 ffine0057 ffine0058 ffine0059 ffine0060 ffine0061 ffine0062 ffine0063 ffine0064 ffine0065 ffine0066 ffine0067 ffine0068 ffine0069 ffine0070 ffine0071 ffine0072 ffine0073 ffine0074 ffine0075 ffine0076 ffine0077 ffine0078 ffine0079 ffine0080 ffine0081 ffine0082 ffine0083 ffine0084 ffine0085 ffine0086 ffine0087 ffine0088 ffine0089 ffine0090 ffine0091 ffine0092 ffine0093 ffine0094 ffine0095 ffine0096 ffine0097 ffine0098 ffine0099 ffine0100 ffine0101 ffine0102 ffine0103 ffine0104 ffine0105 ffine0106 ffine0107 ffine0108 ffine0109 ffine0110 ffine0111 ffine0112 ffine0113 ffine0114 ffine0115 ffine0116 ffine0117 ffine0118 ffine0119 ffine0120 gfine0001 gfine0002 gfine0003 gfine0004 gfine0005 gfine0006 gfine0007 gfine0008 gfine0009 gfine0010 gfine0011 gfine0012 gfine0013 gfine0014 gfine0015 gfine0016 gfine0017 gfine0018 gfine0019 gfine0020 gfine0021 gfine0022 gfine0023 gfine0024 gfine0025 gfine0026 gfine0027 gfine0028 gfine0029 gfine0030 gfine0031 gfine0032 gfine0033 gfine0034 gfine0035 gfine0036 gfine0037 gfine0038 gfine0039 gfine0040 gfine0041 gfine0042 gfine0043 gfine0044 gfine0045 gfine0046 gfine0047 gfine0048 gfine0049 gfine0050 gfine0051 gfine0052 gfine0053 gfine0054 gfine0055 gfine0056 gfine0057 gfine0058 gfine0059 gfine0060 gfine0061 gfine0062 gfine0063 gfine0064 gfine0065 gfine0066 gfine0067 gfine0068 gfine0069 gfine0070 gfine0071 gfine0072 gfine0073 gfine0074 gfine0075 gfine0076 gfine0077 gfine0078 gfine0079 gfine0080 gfine0081 gfine0082 gfine0083 gfine0084 gfine0085 gfine0086 gfine0087 gfine0088 gfine0089 gfine0090 gfine0091 gfine0092 gfine0093 gfine0094 gfine0095 gfine0096 gfine0097 gfine0098 gfine0099 gfine0100 gfine0101 gfine0102 gfine0103 gfine0104 gfine0105 gfine0106 gfine0107 gfine0108 gfine0109 gfine0110 gfine0111 gfine0112 gfine0113 gfine0114 gfine0115 gfine0116 gfine0117 gfine0118 gfine0119 gfine0120 hfine0001 hfine0002 hfine0003 hfine0004 hfine0005 hfine0006 hfine0007 hfine0008 hfine0009 hfine0010 hfine0011 hfine0012 hfine0013 hfine0014 hfine0015 hfine0016 hfine0017 hfine0018 hfine0019 hfine0020 hfine0021 hfine0022 hfine0023 hfine0024 hfine0025 hfine0026 hfine0027 hfine0028 hfine0029 hfine0030 hfine0031 hfine0032 hfine0033 hfine0034 hfine0035 hfine0036 hfine0037 hfine0038 hfine0039 hfine0040 hfine0041 hfine0042 hfine0043 hfine0044 hfine0045 hfine0046 hfine0047 hfine0048 hfine0049 hfine0050 hfine0051 hfine0052 hfine0053 hfine0054 hfine0055 hfine0056 hfine0057 hfine0058 hfine0059 hfine0060 hfine0061 hfine0062 hfine0063 hfine0064 hfine0065 hfine0066 hfine0067 hfine0068 hfine0069 hfine0070 hfine0071 hfine0072 hfine0073 hfine0074 hfine0075 hfine0076 hfine0077 hfine0078 hfine0079 hfine0080 hfine0081 hfine0082 hfine0083 hfine0084 hfine0085 hfine0086 hfine0087 hfine0088 hfine0089 hfine0090 hfine0091 hfine0092 hfine0093 hfine0094 hfine0095 hfine0096 hfine0097 hfine0098 hfine0099 hfine0100 hfine0101 hfine0102 hfine0103 hfine0104 hfine0105 hfine0106 hfine0107 hfine0108 hfine0109 hfine0110 hfine0111 hfine0112 hfine0113 hfine0114 hfine0115 hfine0116 hfine0117 hfine0118 hfine0119 hfine0120 ifine0001 ifine0002 ifine0003 ifine0004 ifine0005 ifine0006 ifine0007 ifine0008 ifine0009 ifine0010 ifine0011 ifine0012 ifine0013 ifine0014 ifine0015 ifine0016 ifine0017 ifine0018 ifine0019 ifine0020 ifine0021 ifine0022 ifine0023 ifine0024 ifine0025 ifine0026 ifine0027 ifine0028 ifine0029 ifine0030 ifine0031 ifine0032 ifine0033 ifine0034 ifine0035 ifine0036 ifine0037 ifine0038 ifine0039 ifine0040 ifine0041 ifine0042 ifine0043 ifine0044 ifine0045 ifine0046 ifine0047 ifine0048 ifine0049 ifine0050 ifine0051 ifine0052 ifine0053 ifine0054 ifine0055 ifine0056 ifine0057 ifine0058 ifine0059 ifine0060 ifine0061 ifine0062 ifine0063 ifine0064 ifine0065 ifine0066 ifine0067 ifine0068 ifine0069 ifine0070 ifine0071 ifine0072 ifine0073 ifine0074 ifine0075 ifine0076 ifine0077 ifine0078 ifine0079 ifine0080 ifine0081 ifine0082 ifine0083 ifine0084 ifine0085 ifine0086 ifine0087 ifine0088 ifine0089 ifine0090 ifine0091 ifine0092 ifine0093 ifine0094 ifine0095 ifine0096 ifine0097 ifine0098 ifine0099 ifine0100 ifine0101 ifine0102 ifine0103 ifine0104 ifine0105 ifine0106 ifine0107 ifine0108 ifine0109 ifine0110 ifine0111 ifine0112 ifine0113 ifine0114 ifine0115 ifine0116 ifine0117 ifine0118 ifine0119 ifine0120 jfine0001 jfine0002 jfine0003 jfine0004 jfine0005 jfine0006 jfine0007 jfine0008 jfine0009 jfine0010 jfine0011 jfine0012 jfine0013 jfine0014 jfine0015 jfine0016 jfine0017 jfine0018 jfine0019 jfine0020 jfine0021 jfine0022 jfine0023 jfine0024 jfine0025 jfine0026 jfine0027 jfine0028 jfine0029 jfine0030 jfine0031 jfine0032 jfine0033 jfine0034 jfine0035 jfine0036 jfine0037 jfine0038 jfine0039 jfine0040 jfine0041 jfine0042 jfine0043 jfine0044 jfine0045 jfine0046 jfine0047 jfine0048 jfine0049 jfine0050 jfine0051 jfine0052 jfine0053 jfine0054 jfine0055 jfine0056 jfine0057 jfine0058 jfine0059 jfine0060 jfine0061 jfine0062 jfine0063 jfine0064 jfine0065 jfine0066 jfine0067 jfine0068 jfine0069 jfine0070 jfine0071 jfine0072 jfine0073 jfine0074 jfine0075 jfine0076 jfine0077 jfine0078 jfine0079 jfine0080 jfine0081 jfine0082 jfine0083 jfine0084 jfine0085 jfine0086 jfine0087 jfine0088 jfine0089 jfine0090 jfine0091 jfine0092 jfine0093 jfine0094 jfine0095 jfine0096 jfine0097 jfine0098 jfine0099 jfine0100 jfine0101 jfine0102 jfine0103 jfine0104 jfine0105 jfine0106 jfine0107 jfine0108 jfine0109 jfine0110 jfine0111 jfine0112 jfine0113 jfine0114 jfine0115 jfine0116 jfine0117 jfine0118 jfine0119 jfine0120 kfine0001 kfine0002 kfine0003 kfine0004 kfine0005 kfine0006 kfine0007 kfine0008 kfine0009 kfine0010 kfine0011 kfine0012 kfine0013 kfine0014 kfine0015 kfine0016 kfine0017 kfine0018 kfine0019 kfine0020 kfine0021 kfine0022 kfine0023 kfine0024 kfine0025 kfine0026 kfine0027 kfine0028 kfine0029 kfine0030 kfine0031 kfine0032 kfine0033 kfine0034 kfine0035 kfine0036 kfine0037 kfine0038 kfine0039 kfine0040 kfine0041 kfine0042 kfine0043 kfine0044 kfine0045 kfine0046 kfine0047 kfine0048 kfine0049 kfine0050 kfine0051 kfine0052 kfine0053 kfine0054 kfine0055 kfine0056 kfine0057 kfine0058 kfine0059 kfine0060 kfine0061 kfine0062 kfine0063 kfine0064 kfine0065 kfine0066 kfine0067 kfine0068 kfine0069 kfine0070 kfine0071 kfine0072 kfine0073 kfine0074 kfine0075 kfine0076 kfine0077 kfine0078 kfine0079 kfine0080 kfine0081 kfine0082 kfine0083 kfine0084 kfine0085 kfine0086 kfine0087 kfine0088 kfine0089 kfine0090 kfine0091 kfine0092 kfine0093 kfine0094 kfine0095 kfine0096 kfine0097 kfine0098 kfine0099 kfine0100 kfine0101 kfine0102 kfine0103 kfine0104 kfine0105 kfine0106 kfine0107 kfine0108 kfine0109 kfine0110 kfine0111 kfine0112 kfine0113 kfine0114 kfine0115 kfine0116 kfine0117 kfine0118 kfine0119 kfine0120 lfine0001 lfine0002 lfine0003 lfine0004 lfine0005 lfine0006 lfine0007 lfine0008 lfine0009 lfine0010 lfine0011 lfine0012 lfine0013 lfine0014 lfine0015 lfine0016 lfine0017 lfine0018 lfine0019 lfine0020 lfine0021 lfine0022 lfine0023 lfine0024 lfine0025 lfine0026 lfine0027 lfine0028 lfine0029 lfine0030 lfine0031 lfine0032 lfine0033 lfine0034 lfine0035 lfine0036 lfine0037 lfine0038 lfine0039 lfine0040 lfine0041 lfine0042 lfine0043 lfine0044 lfine0045 lfine0046 lfine0047 lfine0048 lfine0049 lfine0050 lfine0051 lfine0052 lfine0053 lfine0054 lfine0055 lfine0056 lfine0057 lfine0058 lfine0059 lfine0060 lfine0061 lfine0062 lfine0063 lfine0064 lfine0065 lfine0066 lfine0067 lfine0068 lfine0069 lfine0070 lfine0071 lfine0072 lfine0073 lfine0074 lfine0075 lfine0076 lfine0077 lfine0078 lfine0079 lfine0080 lfine0081 lfine0082 lfine0083 lfine0084 lfine0085 lfine0086 lfine0087 lfine0088 lfine0089 lfine0090 lfine0091 lfine0092 lfine0093 lfine0094 lfine0095 lfine0096 lfine0097 lfine0098 lfine0099 lfine0100 lfine0101 lfine0102 lfine0103 lfine0104 lfine0105 lfine0106 lfine0107 lfine0108 lfine0109 lfine0110 lfine0111 lfine0112 lfine0113 lfine0114 lfine0115 lfine0116 lfine0117 lfine0118 lfine0119 lfine0120";
pub const LARGE_ADVERBS: &'static str = "award0001 award0002 award0003 award0004 award0005 award0006 award0007 award0008 award0009 award0010 award0011 award0012 award0013 award0014 award0015 award0016 award0017 award0018 award0019 award0020 award0021 award0022 award0023 award0024 award0025 award0026 award0027 award0028 award0029 award0030 award0031 award0032 award0033 award0034 award0035 award0036 award0037 award0038 award0039 award0040 award0041 award0042 award0043 award0044 award0045 award0046 award0047 award0048 award0049 award0050 award0051 award0052 award0053 award0054 award0055 award0056 award0057 award0058 award0059 award0060 award0061 award0062 award0063 award0064 award0065 award0066 award0067 award0068 award0069 award0070 award0071 award0072 award0073 award0074 award0075 award0076 award0077 award0078 award0079 award0080 award0081 award0082 award0083 award0084 award0085 award0086 award0087 award0088 award0089 award0090 award0091 award0092 award0093 award0094 award0095 award0096 award0097 award0098 award0099 award0100 award0101 award0102 award0103 award0104 award0105 award0106 award0107 award0108 award0109 award0110 award0111 award0112 award0113 award0114 award0115 award0116 award0117 award0118 award0119 award0120 award0121 award0122 award0123 award0124 award0125 award0126 award0127 award0128 award0129 award0130 award0131 award0132 award0133 award0134 award0135 award0136 award0137 award0138 award0139 award0140 award0141 award0142 award0143 award0144 award0145 award0146 award0147 award0148 award0149 award0150 bward0001 bward0002 bward0003 bward0004 bward0005 bward0006 bward0007 bward0008 bward0009 bward0010 bward0011 bward0012 bward0013 bward0014 bward0015 bward0016 bward0017 bward0018 bward0019 bward0020 bward0021 bward0022 bward0023 bward0024 bward0025 bward0026 bward0027 bward0028 bward0029 bward0030 bward0031 bward0032 bward0033 bward0034 bward0035 bward0036 bward0037 bward0038 bward0039 bward0040 bward0041 bward0042 bward0043 bward0044 bward0045 bward0046 bward0047 bward0048 bward0049 bward0050 bward0051 bward0052 bward0053 bward0054 bward0055 bward0056 bward0057 bward0058 bward0059 bward0060 bward0061 bward0062 bward0063 bward0064 bward0065 bward0066 bward0067 bward0068 bward0069 bward0070 bward0071 bward0072 bward0073 bward0074 bward0075 bward0076 bward0077 bward0078 bward0079 bward0080 bward0081 bward0082 bward0083 bward0084 bward0085 bward0086 bward0087 bward0088 bward0089 bward0090 bward0091 bward0092 bward0093 bward0094 bward0095 bward0096 bward0097 bward0098 bward0099 bward0100 bward0101 bward0102 bward0103 bward0104 bward0105 bward0106 bward0107 bward0108 bward0109 bward0110 bward0111 bward0112 bward0113 bward0114 bward0115 bward0116 bward0117 bward0118 bward0119 bward0120 bward0121 bward0122 bward0123 bward0124 bward0125 bward0126 bward0127 bward0128 bward0129 bward0130 bward0131 bward0132 bward0133 bward0134 bward0135 bward0136 bward0137 bward0138 bward0139 bward0140 bward0141 bward0142 bward0143 bward0144 bward0145 bward0146 bward0147 bward0148 bward0149 bward0150 cward0001 cward0002 cward0003 cward0004 cward0005 cward0006 cward0007 cward0008 cward0009 cward0010 cward0011 cward0012 cward0013 cward0014 cward0015 cward0016 cward0017 cward0018 cward0019 cward0020 cward0021 cward0022 cward0023 cward0024 cward0025 cward0026 cward0027 cward0028 cward0029 cward0030 cward0031 cward0032 cward0033 cward0034 cward0035 cward0036 cward0037 cward0038 cward0039 cward0040 cward0041 cward0042 cward0043 cward0044 cward0045 cward0046 cward0047 cward0048 cward0049 cward0050 cward0051 cward0052 cward0053 cward0054 cward0055 cward0056 cward0057 cward0058 cward0059 cward0060 cward0061 cward0062 cward0063 cward0064 cward0065 cward0066 cward0067 cward0068 cward0069 cward0070 cward0071 cward0072 cward0073 cward0074 cward0075 cward0076 cward0077 cward0078 cward0079 cward0080 cward0081 cward0082 cward0083 cward0084 cward0085 cward0086 cward0087 cward0088 cward0089 cward0090 cward0091 cward0092 cward0093 cward0094 cward0095 cward0096 cward0097 cward0098 cward0099 cward0100 cward0101 cward0102 cward0103 cward0104 cward0105 cward0106 cward0107 cward0108 cward0109 cward0110 cward0111 cward0112 cward0113 cward0114 cward0115 cward0116 cward0117 cward0118 cward0119 cward0120 cward0121 cward0122 cward0123 cward0124 cward0125 cward0126 cward0127 cward0128 cward0129 cward0130 cward0131 cward0132 cward0133 cward0134 cward0135 cward0136 cward0137 cward0138 cward0139 cward0140 cward0141 cward0142 cward0143 cward0144 cward0145 cward0146 cward0147 cward0148 cward0149 cward0150 dward0001 dward0002 dward0003 dward0004 dward0005 dward0006 dward0007 dward0008 dward0009 dward0010 dward0011 dward0012 dward0013 dward0014 dward0015 dward0016 dward0017 dward0018 dward0019 dward0020 dward0021 dward0022 dward0023 dward0024 dward0025 dward0026 dward0027 dward0028 dward0029 dward0030 dward0031 dward0032 dward0033 dward0034 dward0035 dward0036 dward0037 dward0038 dward0039 dward0040 dward0041 dward0042 dward0043 dward0044 dward0045 dward0046 dward0047 dward0048 dward0049 dward0050 dward0051 dward0052 dward0053 dward0054 dward0055 dward0056 dward0057 dward0058 dward0059 dward0060 dward0061 dward0062 dward0063 dward0064 dward0065 dward0066 dward0067 dward0068 dward0069 dward0070 dward0071 dward0072 dward0073 dward0074 dward0075 dward0076 dward0077 dward0078 dward0079 dward0080 dward0081 dward0082 dward0083 dward0084 dward0085 dward0086 dward0087 dward0088 dward0089 dward0090 dward0091 dward0092 dward0093 dward0094 dward0095 dward0096 dward0097 dward0098 dward0099 dward0100 dward0101 dward0102 dward0103 dward0104 dward0105 dward0106 dward0107 dward0108 dward0109 dward0110 dward0111 dward0112 dward0113 dward0114 dward0115 dward0116 dward0117 dward0118 dward0119 dward0120 dward0121 dward0122 dward0123 dward0124 dward0125 dward0126 dward0127 dward0128 dward0129 dward0130 dward0131 dward0132 dward0133 dward0134 dward0135 dward0136 dward0137 dward0138 dward0139 dward0140 dward0141 dward0142 dward0143 dward0144 dward0145 dward0146 dward0147 dward0148 dward0149 dward0150 eward0001 eward0002 eward0003 eward0004 eward0005 eward0006 eward0007 eward0008 eward0009 eward0010 eward0011 eward0012 eward0013 eward0014 eward0015 eward0016 eward0017 eward0018 eward0019 eward0020 eward0021 eward0022 eward0023 eward0024 eward0025 eward0026 eward0027 eward0028 eward0029 eward0030 eward0031 eward0032 eward0033 eward0034 eward0035 eward0036 eward0037 eward0038 eward0039 eward0040 eward0041 eward0042 eward0043 eward0044 eward0045 eward0046 eward0047 eward0048 eward0049 eward0050 eward0051 eward0052 eward0053 eward0054 eward0055 eward0056 eward0057 eward0058 eward0059 eward0060 eward0061 eward0062 eward0063 eward0064 eward0065 eward0066 eward0067 eward0068 eward0069 eward0070 eward0071 eward0072 eward0073 eward0074 eward0075 eward0076 eward0077 eward0078 eward0079 eward0080 eward0081 eward0082 eward0083 eward0084 eward0085 eward0086 eward0087 eward0088 eward0089 eward0090 eward0091 eward0092 eward0093 eward0094 eward0095 eward0096 eward0097 eward0098 eward0099 eward0100 eward0101 eward0102 eward0103 eward0104 eward0105 eward0106 eward0107 eward0108 eward0109 eward0110 eward0111 eward0112 eward0113 eward0114 eward0115 eward0116 eward0117 eward0118 eward0119 eward0120 eward0121 eward0122 eward0123 eward0124 eward0125 eward0126 eward0127 eward0128 eward0129 eward0130 eward0131 eward0132 eward0133 eward0134 eward0135 eward0136 eward0137 eward0138 eward0139 eward0140 eward0141 eward0142 eward0143 eward0144 eward0145 eward0146 eward0147 eward0148 eward0149 eward0150 fward0001 fward0002 fward0003 fward0004 fward0005 fward0006 fward0007 fward0008 fward0009 fward0010 fward0011 fward0012 fward0013 fward0014 fward0015 fward0016 fward0017 fward0018 fward0019 fward0020 fward0021 fward0022 fward0023 fward0024 fward0025 fward0026 fward0027 fward0028 fward0029 fward0030 fward0031 fward0032 fward0033 fward0034 fward0035 fward0036 fward0037 fward0038 fward0039 fward0040 fward0041 fward0042 fward0043 fward0044 fward0045 fward0046 fward0047 fward0048 fward0049 fward0050 fward0051 fward0052 fward0053 fward0054 fward0055 fward0056 fward0057 fward0058 fward0059 fward0060 fward0061 fward0062 fward0063 fward0064 fward0065 fward0066 fward0067 fward0068 fward0069 fward0070 fward0071 fward0072 fward0073 fward0074 fward0075 fward0076 fward0077 fward0078 fward0079 fward0080 fward0081 fward0082 fward0083 fward0084 fward0085 fward0086 fward0087 fward0088 fward0089 fward0090 fward0091 fward0092 fward0093 fward0094 fward0095 fward0096 fward0097 fward0098 fward0099 fward0100 fward0101 fward0102 fward0103 fward0104 fward0105 fward0106 fward0107 fward0108 fward0109 fward0110 fward0111 fward0112 fward0113 fward0114 fward0115 fward0116 fward0117 fward0118 fward0119 fward0120 fward0121 fward0122 fward0123 fward0124 fward0125 fward0126 fward0127 fward0128 fward0129 fward0130 fward0131 fward0132 fward0133 fward0134 fward0135 fward0136 fward0137 fward0138 fward0139 fward0140 fward0141 fward0142 fward0143 fward0144 fward0145 fward0146 fward0147 fward0148 fward0149 fward0150 gward0001 gward0002 gward0003 gward0004 gward0005 gward0006 gward0007 gward0008 gward0009 gward0010 gward0011 gward0012 gward0013 gward0014 gward0015 gward0016 gward0017 gward0018 gward0019 gward0020 gward0021 gward0022 gward0023 gward0024 gward0025 gward0026 gward0027 gward0028 gward0029 gward0030 gward0031 gward0032 gward0033 gward0034 gward0035 gward0036 gward0037 gward0038 gward0039 gward0040 gward0041 gward0042 gward0043 gward0044 gward0045 gward0046 gward0047 gward0048 gward0049 gward0050 gward0051 gward0052 gward0053 gward0054 gward0055 gward0056 gward0057 gward0058 gward0059 gward0060 gward0061 gward0062 gward0063 gward0064 gward0065 gward0066 gward0067 gward0068 gward0069 gward0070 gward0071 gward0072 gward0073 gward0074 gward0075 gward0076 gward0077 gward0078 gward0079 gward0080 gward0081 gward0082 gward0083 gward0084 gward0085 gward0086 gward0087 gward0088 gward0089 gward0090 gward0091 gward0092 gward0093 gward0094 gward0095 gward0096 gward0097 gward0098 gward0099 gward0100 gward0101 gward0102 gward0103 gward0104 gward0105 gward0106 gward0107 gward0108 gward0109 gward0110 gward0111 gward0112 gward0113 gward0114 gward0115 gward0116 gward0117 gward0118 gward0119 gward0120 gward0121 gward0122 gward0123 gward0124 gward0125 gward0126 gward0127 gward0128 gward0129 gward0130 gward0131 gward0132 gward0133 gward0134 gward0135 gward0136 gward0137 gward0138 gward0139 gward0140 gward0141 gward0142 gward0143 gward0144 gward0145 gward0146 gward0147 gward0148 gward0149 gward0150 hward0001 hward0002 hward0003 hward0004 hward0005 hward0006 hward0007 hward0008 hward0009 hward0010 hward0011 hward0012 hward0013 hward0014 hward0015 hward0016 hward0017 hward0018 hward0019 hward0020 hward0021 hward0022 hward0023 hward0024 hward0025 hward0026 hward0027 hward0028 hward0029 hward0030 hward0031 hward0032 hward0033 hward0034 hward0035 hward0036 hward0037 hward0038 hward0039 hward0040 hward0041 hward0042 hward0043 hward0044 hward0045 hward0046 hward0047 hward0048 hward0049 hward0050 hward0051 hward0052 hward0053 hward0054 hward0055 hward0056 hward0057 hward0058 hward0059 hward0060 hward0061 hward0062 hward0063 hward0064 hward0065 hward0066 hward0067 hward0068 hward0069 hward0070 hward0071 hward0072 hward0073 hward0074 hward0075 hward0076 hward0077 hward0078 hward0079 hward0080 hward0081 hward0082 hward0083 hward0084 hward0085 hward0086 hward0087 hward0088 hward0089 hward0090 hward0091 hward0092 hward0093 hward0094 hward0095 hward0096 hward0097 hward0098 hward0099 hward0100 hward0101 hward0102 hward0103 hward0104 hward0105 hward0106 hward0107 hward0108 hward0109 hward0110 hward0111 hward0112 hward0113 hward0114 hward0115 hward0116 hward0117 hward0118 hward0119 hward0120 hward0121 hward0122 hward0123 hward0124 hward0125 hward0126 hward0127 hward0128 hward0129 hward0130 hward0131 hward0132 hward0133 hward0134 hward0135 hward0136 hward0137 hward0138 hward0139 hward0140 hward0141 hward0142 hward0143 hward0144 hward0145 hward0146 hward0147 hward0148 hward0149 hward0150 iward0001 iward0002 iward0003 iward0004 iward0005 iward0006 iward0007 iward0008 iward0009 iward0010 iward0011 iward0012 iward0013 iward0014 iward0015 iward0016 iward0017 iward0018 iward0019 iward0020 iward0021 iward0022 iward0023 iward0024 iward0025 iward0026 iward0027 iward0028 iward0029 iward0030 iward0031 iward0032 iward0033 iward0034 iward0035 iward0036 iward0037 iward0038 iward0039 iward0040 iward0041 iward0042 iward0043 iward0044 iward0045 iward0046 iward0047 iward0048 iward0049 iward0050 iward0051 iward0052 iward0053 iward0054 iward0055 iward0056 iward0057 iward0058 iward0059 iward0060 iward0061 iward0062 iward0063 iward0064 iward0065 iward0066 iward0067 iward0068 iward0069 iward0070 iward0071 iward0072 iward0073 iward0074 iward0075 iward0076 iward0077 iward0078 iward0079 iward0080 iward0081 iward0082 iward0083 iward0084 iward0085 iward0086 iward0087 iward0088 iward0089 iward0090 iward0091 iward0092 iward0093 iward0094 iward0095 iward0096 iward0097 iward0098 iward0099 iward0100 iward0101 iward0102 iward0103 iward0104 iward0105 iward0106 iward0107 iward0108 iward0109 iward0110 iward0111 iward0112 iward0113 iward0114 iward0115 iward0116 iward0117 iward0118 iward0119 iward0120 iward0121 iward0122 iward0123 iward0124 iward0125 iward0126 iward0127 iward0128 iward0129 iward0130 iward0131 iward0132 iward0133 iward0134 iward0135 iward0136 iward0137 iward0138 iward0139 iward0140 iward0141 iward0142 iward0143 iward0144 iward0145 iward0146 iward0147 iward0148 iward0149 iward0150 jward0001 jward0002 jward0003 jward0004 jward0005 jward0006 jward0007 jward0008 jward0009 jward0010 jward0011 jward0012 jward0013 jward0014 jward0015 jward0016 jward0017 jward0018 jward0019 jward0020 jward0021 jward0022 jward0023 jward0024 jward0025 jward0026 jward0027 jward0028 jward0029 jward0030 jward0031 jward0032 jward0033 jward0034 jward0035 jward0036 jward0037 jward0038 jward0039 jward0040 jward0041 jward0042 jward0043 jward0044 jward0045 jward0046 jward0047 jward0048 jward0049 jward0050 jward0051 jward0052 jward0053 jward0054 jward0055 jward0056 jward0057 jward0058 jward0059 jward0060 jward0061 jward0062 jward0063 jward0064 jward0065 jward0066 jward0067 jward0068 jward0069 jward0070 jward0071 jward0072 jward0073 jward0074 jward0075 jward0076 jward0077 jward0078 jward0079 jward0080 jward0081 jward0082 jward0083 jward0084 jward0085 jward0086 jward0087 jward0088 jward0089 jward0090 jward0091 jward0092 jward0093 jward0094 jward0095 jward0096 jward0097 jward0098 jward0099 jward0100 jward0101 jward0102 jward0103 jward0104 jward0105 jward0106 jward0107 jward0108 jward0109 jward0110 jward0111 jward0112 jward0113 jward0114 jward0115 jward0116 jward0117 jward0118 jward0119 jward0120 jward0121 jward0122 jward0123 jward0124 jward0125 jward0126 jward0127 jward0128 jward0129 jward0130 jward0131 jward0132 jward0133 jward0134 jward0135 jward0136 jward0137 jward0138 jward0139 jward0140 jward0141 jward0142 jward0143 jward0144 jward0145 jward0146 jward0147 jward0148 jward0149 jward0150 kward0001 kward0002 kward0003 kward0004 kward0005 kward0006 kward0007 kward0008 kward0009 kward0010 kward0011 kward0012 kward0013 kward0014 kward0015 kward0016 kward0017 kward0018 kward0019 kward0020 kward0021 kward0022 kward0023 kward0024 kward0025 kward0026 kward0027 kward0028 kward0029 kward0030 kward0031 kward0032 kward0033 kward0034 kward0035 kward0036 kward0037 kward0038 kward0039 kward0040 kward0041 kward0042 kward0043 kward0044 kward0045 kward0046 kward0047 kward0048 kward0049 kward0050 kward0051 kward0052 kward0053 kward0054 kward0055 kward0056 kward0057 kward0058 kward0059 kward0060 kward0061 kward0062 kward0063 kward0064 kward0065 kward0066 kward0067 kward0068 kward0069 kward0070 kward0071 kward0072 kward0073 kward0074 kward0075 kward0076 kward0077 kward0078 kward0079 kward0080 kward0081 kward0082 kward0083 kward0084 kward0085 kward0086 kward0087 kward0088 kward0089 kward0090 kward0091 kward0092 kward0093 kward0094 kward0095 kward0096 kward0097 kward0098 kward0099 kward0100 kward0101 kward0102 kward0103 kward0104 kward0105 kward0106 kward0107 kward0108 kward0109 kward0110 kward0111 kward0112 kward0113 kward0114 kward0115 kward0116 kward0117 kward0118 kward0119 kward0120 kward0121 kward0122 kward0123 kward0124 kward0125 kward0126 kward0127 kward0128 kward0129 kward0130 kward0131 kward0132 kward0133 kward0134 kward0135 kward0136 kward0137 kward0138 kward0139 kward0140 kward0141 kward0142 kward0143 kward0144 kward0145 kward0146 kward0147 kward0148 kward0149 kward0150 lward0001 lward0002 lward0003 lward0004 lward0005 lward0006 lward0007 lward0008 lward0009 lward0010 lward0011 lward0012 lward0013 lward0014 lward0015 lward0016 lward0017 lward0018 lward0019 lward0020 lward0021 lward0022 lward0023 lward0024 lward0025 lward0026 lward0027 lward0028 lward0029 lward0030 lward0031 lward0032 lward0033 lward0034 lward0035 lward0036 lward0037 lward0038 lward0039 lward0040 lward0041 lward0042 lward0043 lward0044 lward0045 lward0046 lward0047 lward0048 lward0049 lward0050 lward0051 lward0052 lward0053 lward0054 lward0055 lward0056 lward0057 lward0058 lward0059 lward0060 lward0061 lward0062 lward0063 lward0064 lward0065 lward0066 lward0067 lward0068 lward0069 lward0070 lward0071 lward0072 lward0073 lward0074 lward0075 lward0076 lward0077 lward0078 lward0079 lward0080 lward0081 lward0082 lward0083 lward0084 lward0085 lward0086 lward0087 lward0088 lward0089 lward0090 lward0091 lward0092 lward0093 lward0094 lward0095 lward0096 lward0097 lward0098 lward0099 lward0100 lward0101 lward0102 lward0103 lward0104 lward0105 lward0106 lward0107 lward0108 lward0109 lward0110 lward0111 lward0112 lward0113 lward0114 lward0115 lward0116 lward0117 lward0118 lward0119 lward0120 lward0121 lward0122 lward0123 lward0124 lward0125 lward0126 lward0127 lward0128 lward0129 lward0130 lward0131 lward0132 lward0133 lward0134 lward0135 lward0136 lward0137 lward0138 lward0139 lward0140 lward0141 lward0142 lward0143 lward0144 lward0145 lward0146 lward0147 lward0148 lward0149 lward0150";
pub const LARGE_NOUNS: &'static str = "akind0001 akind0002 akind0003 akind0004 akind0005 akind0006 akind0007 akind0008 akind0009 akind0010 akind0011 akind0012 akind0013 akind0014 akind0015 akind0016 akind0017 akind0018 akind0019 akind0020 akind0021 akind0022 akind0023 akind0024 akind0025 akind0026 akind0027 akind0028 akind0029 akind0030 akind0031 akind0032 akind0033 akind0034 akind0035 akind0036 akind0037 akind0038 akind0039 akind0040 akind0041 akind0042 akind0043 akind0044 akind0045 akind0046 akind0047 akind0048 akind0049 akind0050 akind0051 akind0052 akind0053 akind0054 akind0055 akind0056 akind0057 akind0058 akind0059 akind0060 akind0061 akind0062 akind0063 akind0064 akind0065 akind0066 akind0067 akind0068 akind0069 akind0070 akind0071 akind0072 akind0073 akind0074 akind0075 akind0076 akind0077 akind0078 akind0079 akind0080 akind0081 akind0082 akind0083 akind0084 akind0085 akind0086 akind0087 akind0088 akind0089 akind0090 akind0091 akind0092 akind0093 akind0094 akind0095 akind0096 akind0097 akind0098 akind0099 akind0100 bkind0001 bkind0002 bkind0003 bkind0004 bkind0005 bkind0006 bkind0007 bkind0008 bkind0009 bkind0010 bkind0011 bkind0012 bkind0013 bkind0014 bkind0015 bkind0016 bkind0017 bkind0018 bkind0019 bkind0020 bkind0021 bkind0022 bkind0023 bkind0024 bkind0025 bkind0026 bkind0027 bkind0028 bkind0029 bkind0030 bkind0031 bkind0032 bkind0033 bkind0034 bkind0035 bkind0036 bkind0037 bkind0038 bkind0039 bkind0040 bkind0041 bkind0042 bkind0043 bkind0044 bkind0045 bkind0046 bkind0047 bkind0048 bkind0049 bkind0050 bkind0051 bkind0052 bkind0053 bkind0054 bkind0055 bkind0056 bkind0057 bkind0058 bkind0059 bkind0060 bkind0061 bkind0062 bkind0063 bkind0064 bkind0065 bkind0066 bkind0067 bkind0068 bkind0069 bkind0070 bkind0071 bkind0072 bkind0073 bkind0074 bkind0075 bkind0076 bkind0077 bkind0078 bkind0079 bkind0080 bkind0081 bkind0082 bkind0083 bkind0084 bkind0085 bkind0086 bkind0087 bkind0088 bkind0089 bkind0090 bkind0091 bkind0092 bkind0093 bkind0094 bkind0095 bkind0096 bkind0097 bkind0098 bkind0099 bkind0100 ckind0001 ckind0002 ckind0003 ckind0004 ckind0005 ckind0006 ckind0007 ckind0008 ckind0009 ckind0010 ckind0011 ckind0012 ckind0013 ckind0014 ckind0015 ckind0016 ckind0017 ckind0018 ckind0019 ckind0020 ckind0021 ckind0022 ckind0023 ckind0024 ckind0025 ckind0026 ckind0027 ckind0028 ckind0029 ckind0030 ckind0031 ckind0032 ckind0033 ckind0034 ckind0035 ckind0036 ckind0037 ckind0038 ckind0039 ckind0040 ckind0041 ckind0042 ckind0043 ckind0044 ckind0045 ckind0046 ckind0047 ckind0048 ckind0049 ckind0050 ckind0051 ckind0052 ckind0053 ckind0054 ckind0055 ckind0056 ckind0057 ckind0058 ckind0059 ckind0060 ckind0061 ckind0062 ckind0063 ckind0064 ckind0065 ckind0066 ckind0067 ckind0068 ckind0069 ckind0070 ckind0071 ckind0072 ckind0073 ckind0074 ckind0075 ckind0076 ckind0077 ckind0078 ckind0079 ckind0080 ckind0081 ckind0082 ckind0083 ckind0084 ckind0085 ckind0086 ckind0087 ckind0088 ckind0089 ckind0090 ckind0091 ckind0092 ckind0093 ckind0094 ckind0095 ckind0096 ckind0097 ckind0098 ckind0099 ckind0100 dkind0001 dkind0002 dkind0003 dkind0004 dkind0005 dkind0006 dkind0007 dkind0008 dkind0009 dkind0010 dkind0011 dkind0012 dkind0013 dkind0014 dkind0015 dkind0016 dkind0017 dkind0018 dkind0019 dkind0020 dkind0021 dkind0022 dkind0023 dkind0024 dkind0025 dkind0026 dkind0027 dkind0028 dkind0029 dkind0030 dkind0031 dkind0032 dkind0033 dkind0034 dkind0035 dkind0036 dkind0037 dkind0038 dkind0039 dkind0040 dkind0041 dkind0042 dkind0043 dkind0044 dkind0045 dkind0046 dkind0047 dkind0048 dkind0049 dkind0050 dkind0051 dkind0052 dkind0053 dkind0054 dkind0055 dkind0056 dkind0057 dkind0058 dkind0059 dkind0060 dkind0061 dkind0062 dkind0063 dkind0064 dkind0065 dkind0066 dkind0067 dkind0068 dkind0069 dkind0070 dkind0071 dkind0072 dkind0073 dkind0074 dkind0075 dkind0076 dkind0077 dkind0078 dkind0079 dkind0080 dkind0081 dkind0082 dkind0083 dkind0084 dkind0085 dkind0086 dkind0087 dkind0088 dkind0089 dkind0090 dkind0091 dkind0092 dkind0093 dkind0094 dkind0095 dkind0096 dkind0097 dkind0098 dkind0099 dkind0100 ekind0001 ekind0002 ekind0003 ekind0004 ekind0005 ekind0006 ekind0007 ekind0008 ekind0009 ekind0010 ekind0011 ekind0012 ekind0013 ekind0014 ekind0015 ekind0016 ekind0017 ekind0018 ekind0019 ekind0020 ekind0021 ekind0022 ekind0023 ekind0024 ekind0025 ekind0026 ekind0027 ekind0028 ekind0029 ekind0030 ekind0031 ekind0032 ekind0033 ekind0034 ekind0035 ekind0036 ekind0037 ekind0038 ekind0039 ekind0040 ekind0041 ekind0042 ekind0043 ekind0044 ekind0045 ekind0046 ekind0047 ekind0048 ekind0049 ekind0050 ekind0051 ekind0052 ekind0053 ekind0054 ekind0055 ekind0056 ekind0057 ekind0058 ekind0059 ekind0060 ekind0061 ekind0062 ekind0063 ekind0064 ekind0065 ekind0066 ekind0067 ekind0068 ekind0069 ekind0070 ekind0071 ekind0072 ekind0073 ekind0074 ekind0075 ekind0076 ekind0077 ekind0078 ekind0079 ekind0080 ekind0081 ekind0082 ekind0083 ekind0084 ekind0085 ekind0086 ekind0087 ekind0088 ekind0089 ekind0090 ekind0091 ekind0092 ekind0093 ekind0094 ekind0095 ekind0096 ekind0097 ekind0098 ekind0099 ekind0100 fkind0001 fkind0002 fkind0003 fkind0004 fkind0005 fkind0006 fkind0007 fkind0008 fkind0009 fkind0010 fkind0011 fkind0012 fkind0013 fkind0014 fkind0015 fkind0016 fkind0017 fkind0018 fkind0019 fkind0020 fkind0021 fkind0022 fkind0023 fkind0024 fkind0025 fkind0026 fkind0027 fkind0028 fkind0029 fkind0030 fkind0031 fkind0032 fkind0033 fkind0034 fkind0035 fkind0036 fkind0037 fkind0038 fkind0039 fkind0040 fkind0041 fkind0042 fkind0043 fkind0044 fkind0045 fkind0046 fkind0047 fkind0048 fkind0049 fkind0050 fkind0051 fkind0052 fkind0053 fkind0054 fkind0055 fkind0056 fkind0057 fkind0058 fkind0059 fkind0060 fkind0061 fkind0062 fkind0063 fkind0064 fkind0065 fkind0066 fkind0067 fkind0068 fkind0069 fkind0070 fkind0071 fkind0072 fkind0073 fkind0074 fkind0075 fkind0076 fkind0077 fkind0078 fkind0079 fkind0080 fkind0081 fkind0082 fkind0083 fkind0084 fkind0085 fkind0086 fkind0087 fkind0088 fkind0089 fkind0090 fkind0091 fkind0092 fkind0093 fkind0094 fkind0095 fkind0096 fkind0097 fkind0098 fkind0099 fkind0100 gkind0001 gkind0002 gkind0003 gkind0004 gkind0005 gkind0006 gkind0007 gkind0008 gkind0009 gkind0010 gkind0011 gkind0012 gkind0013 gkind0014 gkind0015 gkind0016 gkind0017 gkind0018 gkind0019 gkind0020 gkind0021 gkind0022 gkind0023 gkind0024 gkind0025 gkind0026 gkind0027 gkind0028 gkind0029 gkind0030 gkind0031 gkind0032 gkind0033 gkind0034 gkind0035 gkind0036 gkind0037 gkind0038 gkind0039 gkind0040 gkind0041 gkind0042 gkind0043 gkind0044 gkind0045 gkind0046 gkind0047 gkind0048 gkind0049 gkind0050 gkind0051 gkind0052 gkind0053 gkind0054 gkind0055 gkind0056 gkind0057 gkind0058 gkind0059 gkind0060 gkind0061 gkind0062 gkind0063 gkind0064 gkind0065 gkind0066 gkind0067 gkind0068 gkind0069 gkind0070 gkind0071 gkind0072 gkind0073 gkind0074 gkind0075 gkind0076 gkind0077 gkind0078 gkind0079 gkind0080 gkind0081 gkind0082 gkind0083 gkind0084 gkind0085 gkind0086 gkind0087 gkind0088 gkind0089 gkind0090 gkind0091 gkind0092 gkind0093 gkind0094 gkind0095 gkind0096 gkind0097 gkind0098 gkind0099 gkind0100 hkind0001 hkind0002 hkind0003 hkind0004 hkind0005 hkind0006 hkind0007 hkind0008 hkind0009 hkind0010 hkind0011 hkind0012 hkind0013 hkind0014 hkind0015 hkind0016 hkind0017 hkind0018 hkind0019 hkind0020 hkind0021 hkind0022 hkind0023 hkind0024 hkind0025 hkind0026 hkind0027 hkind0028 hkind0029 hkind0030 hkind0031 hkind0032 hkind0033 hkind0034 hkind0035 hkind0036 hkind0037 hkind0038 hkind0039 hkind0040 hkind0041 hkind0042 hkind0043 hkind0044 hkind0045 hkind0046 hkind0047 hkind0048 hkind0049 hkind0050 hkind0051 hkind0052 hkind0053 hkind0054 hkind0055 hkind0056 hkind0057 hkind0058 hkind0059 hkind0060 hkind0061 hkind0062 hkind0063 hkind0064 hkind0065 hkind0066 hkind0067 hkind0068 hkind0069 hkind0070 hkind0071 hkind0072 hkind0073 hkind0074 hkind0075 hkind0076 hkind0077 hkind0078 hkind0079 hkind0080 hkind0081 hkind0082 hkind0083 hkind0084 hkind0085 hkind0086 hkind0087 hkind0088 hkind0089 hkind0090 hkind0091 hkind0092 hkind0093 hkind0094 hkind0095 hkind0096 hkind0097 hkind0098 hkind0099 hkind0100 ikind0001 ikind0002 ikind0003 ikind0004 ikind0005 ikind0006 ikind0007 ikind0008 ikind0009 ikind0010 ikind0011 ikind0012 ikind0013 ikind0014 ikind0015 ikind0016 ikind0017 ikind0018 ikind0019 ikind0020 ikind0021 ikind0022 ikind0023 ikind0024 ikind0025 ikind0026 ikind0027 ikind0028 ikind0029 ikind0030 ikind0031 ikind0032 ikind0033 ikind0034 ikind0035 ikind0036 ikind0037 ikind0038 ikind0039 ikind0040 ikind0041 ikind0042 ikind0043 ikind0044 ikind0045 ikind0046 ikind0047 ikind0048 ikind0049 ikind0050 ikind0051 ikind0052 ikind0053 ikind0054 ikind0055 ikind0056 ikind0057 ikind0058 ikind0059 ikind0060 ikind0061 ikind0062 ikind0063 ikind0064 ikind0065 ikind0066 ikind0067 ikind0068 ikind0069 ikind0070 ikind0071 ikind0072 ikind0073 ikind0074 ikind0075 ikind0076 ikind0077 ikind0078 ikind0079 ikind0080 ikind0081 ikind0082 ikind0083 ikind0084 ikind0085 ikind0086 ikind0087 ikind0088 ikind0089 ikind0090 ikind0091 ikind0092 ikind0093 ikind0094 ikind0095 ikind0096 ikind0097 ikind0098 ikind0099 ikind0100 jkind0001 jkind0002 jkind0003 jkind0004 jkind0005 jkind0006 jkind0007 jkind0008 jkind0009 jkind0010 jkind0011 jkind0012 jkind0013 jkind0014 jkind0015 jkind0016 jkind0017 jkind0018 jkind0019 jkind0020 jkind0021 jkind0022 jkind0023 jkind0024 jkind0025 jkind0026 jkind0027 jkind0028 jkind0029 jkind0030 jkind0031 jkind0032 jkind0033 jkind0034 jkind0035 jkind0036 jkind0037 jkind0038 jkind0039 jkind0040 jkind0041 jkind0042 jkind0043 jkind0044 jkind0045 jkind0046 jkind0047 jkind0048 jkind0049 jkind0050 jkind0051 jkind0052 jkind0053 jkind0054 jkind0055 jkind0056 jkind0057 jkind0058 jkind0059 jkind0060 jkind0061 jkind0062 jkind0063 jkind0064 jkind0065 jkind0066 jkind0067 jkind0068 jkind0069 jkind0070 jkind0071 jkind0072 jkind0073 jkind0074 jkind0075 jkind0076 jkind0077 jkind0078 jkind0079 jkind0080 jkind0081 jkind0082 jkind0083 jkind0084 jkind0085 jkind0086 jkind0087 jkind0088 jkind0089 jkind0090 jkind0091 jkind0092 jkind0093 jkind0094 jkind0095 jkind0096 jkind0097 jkind0098 jkind0099 jkind0100 kkind0001 kkind0002 kkind0003 kkind0004 kkind0005 kkind0006 kkind0007 kkind0008 kkind0009 kkind0010 kkind0011 kkind0012 kkind0013 kkind0014 kkind0015 kkind0016 kkind0017 kkind0018 kkind0019 kkind0020 kkind0021 kkind0022 kkind0023 kkind0024 kkind0025 kkind0026 kkind0027 kkind0028 kkind0029 kkind0030 kkind0031 kkind0032 kkind0033 kkind0034 kkind0035 kkind0036 kkind0037 kkind0038 kkind0039 kkind0040 kkind0041 kkind0042 kkind0043 kkind0044 kkind0045 kkind0046 kkind0047 kkind0048 kkind0049 kkind0050 kkind0051 kkind0052 kkind0053 kkind0054 kkind0055 kkind0056 kkind0057 kkind0058 kkind0059 kkind0060 kkind0061 kkind0062 kkind0063 kkind0064 kkind0065 kkind0066 kkind0067 kkind0068 kkind0069 kkind0070 kkind0071 kkind0072 kkind0073 kkind0074 kkind0075 kkind0076 kkind0077 kkind0078 kkind0079 kkind0080 kkind0081 kkind0082 kkind0083 kkind0084 kkind0085 kkind0086 kkind0087 kkind0088 kkind0089 kkind0090 kkind0091 kkind0092 kkind0093 kkind0094 kkind0095 kkind0096 kkind0097 kkind0098 kkind0099 kkind0100 lkind0001 lkind0002 lkind0003 lkind0004 lkind0005 lkind0006 lkind0007 lkind0008 lkind0009 lkind0010 lkind0011 lkind0012 lkind0013 lkind0014 lkind0015 lkind0016 lkind0017 lkind0018 lkind0019 lkind0020 lkind0021 lkind0022 lkind0023 lkind0024 lkind0025 lkind0026 lkind0027 lkind0028 lkind0029 lkind0030 lkind0031 lkind0032 lkind0033 lkind0034 lkind0035 lkind0036 lkind0037 lkind0038 lkind0039 lkind0040 lkind0041 lkind0042 lkind0043 lkind0044 lkind0045 lkind0046 lkind0047 lkind0048 lkind0049 lkind0050 lkind0051 lkind0052 lkind0053 lkind0054 lkind0055 lkind0056 lkind0057 lkind0058 lkind0059 lkind0060 lkind0061 lkind0062 lkind0063 lkind0064 lkind0065 lkind0066 lkind0067 lkind0068 lkind0069 lkind0070 lkind0071 lkind0072 lkind0073 lkind0074 lkind0075 lkind0076 lkind0077 lkind0078 lkind0079 lkind0080 lkind0081 lkind0082 lkind0083 lkind0084 lkind0085 lkind0086 lkind0087 lkind0088 lkind0089 lkind0090 lkind0091 lkind0092 lkind0093 lkind0094 lkind0095 lkind0096 lkind0097 lkind0098 lkind0099 lkind0100";

/// The view of the small built-in store.
pub open spec fn small_view() -> WordsView {
    WordsView {
        adjectives: split_whitespace_spec(SMALL_ADJECTIVES@),
        adverbs: split_whitespace_spec(SMALL_ADVERBS@),
        nouns: split_whitespace_spec(SMALL_NOUNS@),
    }
}

/// The view of the medium built-in store.
pub open spec fn medium_view() -> WordsView {
    WordsView {
        adjectives: split_whitespace_spec(MEDIUM_ADJECTIVES@),
        adverbs: split_whitespace_spec(MEDIUM_ADVERBS@),
        nouns: split_whitespace_spec(MEDIUM_NOUNS@),
    }
}

/// The view of the large built-in store.
pub open spec fn large_view() -> WordsView {
    WordsView {
        adjectives: split_whitespace_spec(LARGE_ADJECTIVES@),
        adverbs: split_whitespace_spec(LARGE_ADVERBS@),
        nouns: split_whitespace_spec(LARGE_NOUNS@),
    }
}

} // verus!
